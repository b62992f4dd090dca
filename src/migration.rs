//! Schema evolution at every open: create what is absent, add the columns
//! that older stores lack, and seed the configuration keys that are missing.
//! Running it again changes nothing.

use vstd::prelude::*;
use vstd::string::*;
use crate::text::joined;

verus! {

/// The column that stores made before pausing kept remaining time lack.
pub open spec fn remaining_column() -> Seq<char> {
    "remaining_time_seconds"@
}

/// The configuration keys seeded into every store, with their values.
pub open spec fn default_settings() -> Seq<(Seq<char>, Seq<char>)> {
    seq![
        ("schema_version"@, "1"@),
        ("theme"@, "\"system\""@),
        ("language"@, "\"ko\""@),
        ("timer_default_minutes"@, "5"@),
        ("notification_sound"@, "true"@),
        ("notification_vibration"@, "true"@),
    ]
}

/// The entries of `defs` whose keys are not in `keys`, in order.
pub open spec fn missing_defaults(defs: Seq<(Seq<char>, Seq<char>)>, keys: Seq<Seq<char>>) -> Seq<
    (Seq<char>, Seq<char>),
>
    decreases defs.len(),
{
    if defs.len() == 0 {
        Seq::empty()
    } else {
        let rest = missing_defaults(defs.drop_last(), keys);
        if keys.contains(defs.last().0) {
            rest
        } else {
            rest.push(defs.last())
        }
    }
}

/// The keys of configuration entries.
pub open spec fn keys_of(defs: Seq<(Seq<char>, Seq<char>)>) -> Seq<Seq<char>> {
    defs.map_values(|kv: (Seq<char>, Seq<char>)| kv.0)
}

/// A configuration row to insert where its key is absent.
#[derive(Debug, Clone)]
pub struct SeedSetting {
    pub id: String,
    pub key: String,
    pub value: String,
}

/// What the evolution step does on a store after the tables exist: whether
/// to add the remaining-time column, and the configuration rows to seed.
pub struct MigrationPlan {
    pub add_remaining_time_column: bool,
    pub seeds: Vec<SeedSetting>,
}

/// The texts as the contracts see them.
pub open spec fn texts_view(v: Seq<String>) -> Seq<Seq<char>> {
    v.map_values(|s: String| s@)
}

fn has_text(list: &Vec<String>, t: &str) -> (r: bool)
    ensures
        r == texts_view(list@).contains(t@),
{
    let mut i: usize = 0;
    while i < list.len()
        invariant
            0 <= i <= list@.len(),
            forall|j: int| 0 <= j < i ==> list@[j]@ != t@,
        decreases list@.len() - i,
    {
        if list[i] == String::from_str(t) {
            assert(texts_view(list@)[i as int] == t@);
            return true;
        }
        i = i + 1;
    }
    proof {
        if texts_view(list@).contains(t@) {
            let j = choose|j: int| 0 <= j < texts_view(list@).len() && texts_view(list@)[j] == t@;
            assert(list@[j]@ == t@);
        }
    }
    false
}

fn default_setting_list() -> (r: Vec<(&'static str, &'static str)>)
    ensures
        r@.map_values(|kv: (&str, &str)| (kv.0@, kv.1@)) == default_settings(),
{
    let mut v: Vec<(&'static str, &'static str)> = Vec::new();
    v.push(("schema_version", "1"));
    v.push(("theme", "\"system\""));
    v.push(("language", "\"ko\""));
    v.push(("timer_default_minutes", "5"));
    v.push(("notification_sound", "true"));
    v.push(("notification_vibration", "true"));
    assert(v@.map_values(|kv: (&str, &str)| (kv.0@, kv.1@)) =~= default_settings());
    v
}

/// The seed rows as the contracts see them: key and value.
pub open spec fn seeds_view(s: Seq<SeedSetting>) -> Seq<(Seq<char>, Seq<char>)> {
    s.map_values(|x: SeedSetting| (x.key@, x.value@))
}

/// Plans the evolution of a store whose task table has the columns
/// `task_columns` and whose configuration has the keys `setting_keys`: the
/// remaining-time column is added only where it is missing, and only the
/// default keys that are absent are seeded, each under id `setting_<key>`.
pub fn plan_migration(task_columns: &Vec<String>, setting_keys: &Vec<String>) -> (r: MigrationPlan)
    ensures
        r.add_remaining_time_column == !texts_view(task_columns@).contains(remaining_column()),
        seeds_view(r.seeds@) == missing_defaults(default_settings(), texts_view(setting_keys@)),
        forall|i: int|
            0 <= i < r.seeds@.len() ==> (#[trigger] r.seeds@[i]).id@ == "setting_"@ + r.seeds@[i].key@,
{
    let add = !has_text(task_columns, "remaining_time_seconds");
    let defs = default_setting_list();
    let ghost dv = default_settings();
    let ghost kv = texts_view(setting_keys@);
    let mut seeds: Vec<SeedSetting> = Vec::new();
    let mut i: usize = 0;
    while i < defs.len()
        invariant
            0 <= i <= defs@.len(),
            dv == defs@.map_values(|kv: (&str, &str)| (kv.0@, kv.1@)),
            kv == texts_view(setting_keys@),
            seeds_view(seeds@) == missing_defaults(dv.take(i as int), kv),
            forall|j: int|
                0 <= j < seeds@.len() ==> (#[trigger] seeds@[j]).id@ == "setting_"@ + seeds@[j].key@,
        decreases defs@.len() - i,
    {
        let (k, v) = defs[i];
        proof {
            assert(dv.take(i as int + 1).drop_last() =~= dv.take(i as int));
            assert(dv.take(i as int + 1).last() == (k@, v@));
        }
        if !has_text(setting_keys, k) {
            let ghost before = seeds@;
            seeds.push(SeedSetting { id: joined("setting_", k), key: String::from_str(k), value: String::from_str(v) });
            proof {
                assert(seeds_view(seeds@) =~= seeds_view(before).push((k@, v@)));
            }
        }
        i = i + 1;
    }
    proof {
        assert(dv.take(i as int) =~= dv);
    }
    MigrationPlan { add_remaining_time_column: add, seeds }
}

/// The tables the schema creates.
pub open spec fn schema_tables() -> Set<Seq<char>> {
    set![
        "tbl_setting"@,
        "tbl_task"@,
        "tbl_task_tag"@,
        "tbl_task_memo"@,
        "tbl_task_note"@,
        "tbl_task_run_history"@,
        "tbl_task_time_extension"@,
        "tbl_task_action_history"@,
    ]
}

/// The columns of a freshly created task table.
pub open spec fn created_task_columns() -> Set<Seq<char>> {
    set![
        "id"@,
        "title"@,
        "description"@,
        "url"@,
        "slack_message_id"@,
        "priority"@,
        "status"@,
        "total_time_spent"@,
        "expected_duration"@,
        "remaining_time_seconds"@,
        "target_date"@,
        "is_important"@,
        "created_at"@,
        "updated_at"@,
        "completed_at"@,
        "last_paused_at"@,
        "last_run_at"@,
    ]
}

/// The shape of a store: its tables, the columns of its task table, and the
/// keys of its configuration rows in insertion order.
pub struct StoreShape {
    pub tables: Set<Seq<char>>,
    pub task_columns: Set<Seq<char>>,
    pub setting_keys: Seq<Seq<char>>,
}

/// The shape after one evolution step: absent tables created (a task table
/// that exists keeps its columns), the remaining-time column added where it
/// is missing, and the missing default keys appended.
pub open spec fn evolved(s: StoreShape) -> StoreShape {
    let cols = if s.tables.contains("tbl_task"@) {
        s.task_columns
    } else {
        created_task_columns()
    };
    StoreShape {
        tables: s.tables + schema_tables(),
        task_columns: if cols.contains(remaining_column()) {
            cols
        } else {
            cols.insert(remaining_column())
        },
        setting_keys: s.setting_keys + keys_of(missing_defaults(default_settings(), s.setting_keys)),
    }
}

proof fn lemma_missing_contains(
    defs: Seq<(Seq<char>, Seq<char>)>,
    keys: Seq<Seq<char>>,
    x: (Seq<char>, Seq<char>),
)
    ensures
        missing_defaults(defs, keys).contains(x) <==> (defs.contains(x) && !keys.contains(x.0)),
    decreases defs.len(),
{
    broadcast use vstd::seq_lib::group_seq_properties;

    if defs.len() > 0 {
        let d = defs.drop_last();
        lemma_missing_contains(d, keys, x);
        assert(defs =~= d.push(defs.last()));
        if defs.contains(x) && x != defs.last() {
            let j = choose|j: int| 0 <= j < defs.len() && defs[j] == x;
            assert(d[j] == x);
        }
        if d.contains(x) {
            let j = choose|j: int| 0 <= j < d.len() && d[j] == x;
            assert(defs[j] == x);
        }
    }
}

proof fn lemma_nothing_missing(defs: Seq<(Seq<char>, Seq<char>)>, keys: Seq<Seq<char>>)
    requires
        forall|i: int| 0 <= i < defs.len() ==> keys.contains(#[trigger] defs[i].0),
    ensures
        missing_defaults(defs, keys) == Seq::<(Seq<char>, Seq<char>)>::empty(),
    decreases defs.len(),
{
    if defs.len() > 0 {
        let d = defs.drop_last();
        assert forall|i: int| 0 <= i < d.len() implies keys.contains(#[trigger] d[i].0) by {
            assert(d[i] == defs[i]);
        }
        lemma_nothing_missing(d, keys);
        assert(keys.contains(defs[defs.len() - 1].0));
    }
}

proof fn lemma_missing_keys_distinct(defs: Seq<(Seq<char>, Seq<char>)>, keys: Seq<Seq<char>>)
    requires
        keys_of(defs).no_duplicates(),
    ensures
        keys_of(missing_defaults(defs, keys)).no_duplicates(),
        forall|i: int|
            0 <= i < missing_defaults(defs, keys).len() ==> !keys.contains(
                #[trigger] missing_defaults(defs, keys)[i].0,
            ) && defs.contains(missing_defaults(defs, keys)[i]),
    decreases defs.len(),
{
    if defs.len() > 0 {
        let d = defs.drop_last();
        assert(keys_of(d) =~= keys_of(defs).drop_last());
        lemma_missing_keys_distinct(d, keys);
        let rest = missing_defaults(d, keys);
        let m = missing_defaults(defs, keys);
        assert forall|i: int| 0 <= i < rest.len() implies defs.contains(#[trigger] rest[i]) by {
            let j = choose|j: int| 0 <= j < d.len() && d[j] == rest[i];
            assert(defs[j] == rest[i]);
        }
        if !keys.contains(defs.last().0) {
            assert(m == rest.push(defs.last()));
            assert(keys_of(m) =~= keys_of(rest).push(defs.last().0));
            assert forall|i: int| 0 <= i < rest.len() implies #[trigger] rest[i].0 != defs.last().0 by {
                let j = choose|j: int| 0 <= j < d.len() && d[j] == rest[i];
                assert(keys_of(defs)[j] == rest[i].0);
                assert(keys_of(defs)[defs.len() - 1] == defs.last().0);
            }
            assert forall|a: int, b: int|
                0 <= a < keys_of(m).len() && 0 <= b < keys_of(m).len() && a != b implies keys_of(m)[a]
                != keys_of(m)[b] by {
                if a < rest.len() && b < rest.len() {
                    assert(keys_of(rest)[a] == keys_of(m)[a]);
                    assert(keys_of(rest)[b] == keys_of(m)[b]);
                } else if a < rest.len() {
                    assert(keys_of(m)[a] == rest[a].0);
                } else if b < rest.len() {
                    assert(keys_of(m)[b] == rest[b].0);
                }
            }
        }
    }
}

proof fn lemma_default_keys_distinct()
    ensures
        keys_of(default_settings()).no_duplicates(),
{
    reveal_strlit("schema_version");
    reveal_strlit("theme");
    reveal_strlit("language");
    reveal_strlit("timer_default_minutes");
    reveal_strlit("notification_sound");
    reveal_strlit("notification_vibration");
    let k = keys_of(default_settings());
    assert(k[0].len() == 14);
    assert(k[1].len() == 5);
    assert(k[2].len() == 8);
    assert(k[3].len() == 21);
    assert(k[4].len() == 18);
    assert(k[5].len() == 22);
}

/// Schema evolution run a second time right after the first changes nothing:
/// the tables, the task columns and the configuration keys stay as the first
/// run left them. A store without repeated configuration keys gets none from
/// the seeding.
pub proof fn lemma_evolution_idempotent(s: StoreShape)
    ensures
        evolved(evolved(s)) == evolved(s),
        s.setting_keys.no_duplicates() ==> evolved(s).setting_keys.no_duplicates(),
{
    let e = evolved(s);
    let defs = default_settings();
    let added = missing_defaults(defs, s.setting_keys);
    assert forall|i: int| 0 <= i < defs.len() implies e.setting_keys.contains(#[trigger] defs[i].0) by {
        if s.setting_keys.contains(defs[i].0) {
            let j = choose|j: int| 0 <= j < s.setting_keys.len() && s.setting_keys[j] == defs[i].0;
            assert(e.setting_keys[j] == defs[i].0);
        } else {
            assert(defs.contains(defs[i]));
            lemma_missing_contains(defs, s.setting_keys, defs[i]);
            let j = choose|j: int| 0 <= j < added.len() && added[j] == defs[i];
            assert(e.setting_keys[s.setting_keys.len() + j] == defs[i].0);
        }
    }
    lemma_nothing_missing(defs, e.setting_keys);
    assert(keys_of(Seq::<(Seq<char>, Seq<char>)>::empty()) =~= Seq::<Seq<char>>::empty());
    assert(evolved(e).setting_keys =~= e.setting_keys);
    assert(evolved(e).tables =~= e.tables);
    assert(e.tables.contains("tbl_task"@));
    assert(evolved(e).task_columns =~= e.task_columns);
    if s.setting_keys.no_duplicates() {
        lemma_default_keys_distinct();
        lemma_missing_keys_distinct(defs, s.setting_keys);
        let a = s.setting_keys;
        let b = keys_of(added);
        assert forall|x: int, y: int|
            0 <= x < (a + b).len() && 0 <= y < (a + b).len() && x != y implies (a + b)[x] != (a
            + b)[y] by {
            if x >= a.len() && y < a.len() {
                assert(!a.contains(added[x - a.len()].0));
                assert((a + b)[y] == a[y]);
            } else if y >= a.len() && x < a.len() {
                assert(!a.contains(added[y - a.len()].0));
                assert((a + b)[x] == a[x]);
            }
        }
    }
}

} // verus!
