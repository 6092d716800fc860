//! Which profiles are in force at a given day and time, and the policy that
//! merges their rules with the global block list.

use vstd::prelude::*;
use crate::model::{ActivePolicy, BlockedApp, BlockedWebsite, DomRule, Profile};
use crate::order::{chars_less, insert_sorted, strictly_sorted, text_less, texts};
use crate::text::chars_of;

verus! {

/// A schedule as it is stored: its days are the stored text (a JSON list of
/// day names), which is matched as text.
pub struct StoredSchedule {
    pub profile_id: String,
    pub days: Option<String>,
    pub start_time: Option<String>,
    pub end_time: Option<String>,
}

/// The stored records that the policy is computed from.
pub struct PolicyTables {
    pub profiles: Vec<Profile>,
    pub schedules: Vec<StoredSchedule>,
    pub websites: Vec<BlockedWebsite>,
    pub apps: Vec<BlockedApp>,
    pub dom_rules: Vec<DomRule>,
    pub global_websites: Vec<String>,
}

/// A character with ASCII capitals taken to small letters.
pub open spec fn fold_ascii(c: char) -> int {
    let u = c as u32;
    if 65 <= u && u <= 90 {
        u + 32
    } else {
        u as int
    }
}

/// SQL `LIKE`: whether `text` matches `pattern`, where `%` stands for any
/// run of characters, `_` for any one character, and ASCII letters match
/// without regard to case.
pub open spec fn like(pattern: Seq<char>, text: Seq<char>) -> bool
    decreases pattern.len() + text.len(),
{
    if pattern.len() == 0 {
        text.len() == 0
    } else if pattern[0] == '%' {
        like(pattern.skip(1), text) || (text.len() > 0 && like(pattern, text.skip(1)))
    } else if text.len() == 0 {
        false
    } else if pattern[0] == '_' {
        like(pattern.skip(1), text.skip(1))
    } else {
        fold_ascii(pattern[0]) == fold_ascii(text[0]) && like(pattern.skip(1), text.skip(1))
    }
}

/// The pattern that the stored days are matched against for `day`: any
/// text, a double quote, `day`, any text.
pub open spec fn day_pattern(day: Seq<char>) -> Seq<char> {
    seq!['%', '"'] + day + seq!['%']
}

/// Whether a schedule covers `day` at `time`: its stored days match the
/// day's pattern, its start is not after `time` and its end is after it.
pub open spec fn schedule_matches(s: StoredSchedule, day: Seq<char>, time: Seq<char>) -> bool {
    &&& s.days matches Some(ds) && like(day_pattern(day), ds@)
    &&& s.start_time matches Some(st) && !text_less(time, st@)
    &&& s.end_time matches Some(et) && text_less(time, et@)
}

/// Whether a profile is in force: it is enabled, and it has no schedule or
/// one of its schedules covers the moment.
pub open spec fn profile_in_force(
    p: Profile,
    schedules: Seq<StoredSchedule>,
    day: Seq<char>,
    time: Seq<char>,
) -> bool {
    &&& p.enabled
    &&& (forall|j: int| 0 <= j < schedules.len() ==> (#[trigger] schedules[j]).profile_id@ != p.id@)
        || exists|j: int|
        0 <= j < schedules.len() && (#[trigger] schedules[j]).profile_id@ == p.id@
            && schedule_matches(schedules[j], day, time)
}

/// Whether some profile with this id is in force.
pub open spec fn id_in_force(
    profiles: Seq<Profile>,
    schedules: Seq<StoredSchedule>,
    id: Seq<char>,
    day: Seq<char>,
    time: Seq<char>,
) -> bool {
    exists|k: int|
        0 <= k < profiles.len() && (#[trigger] profiles[k]).id@ == id && profile_in_force(
            profiles[k],
            schedules,
            day,
            time,
        )
}

/// The profiles in force, in stored order.
pub open spec fn profiles_in_force(
    profiles: Seq<Profile>,
    schedules: Seq<StoredSchedule>,
    day: Seq<char>,
    time: Seq<char>,
) -> Seq<Profile>
    decreases profiles.len(),
{
    if profiles.len() == 0 {
        seq![]
    } else {
        let rest = profiles_in_force(profiles.drop_last(), schedules, day, time);
        if profile_in_force(profiles.last(), schedules, day, time) {
            rest.push(profiles.last())
        } else {
            rest
        }
    }
}

/// The websites that the policy blocks: those of profiles in force and the
/// global ones.
pub open spec fn blocked_website_set(t: PolicyTables, day: Seq<char>, time: Seq<char>) -> Set<
    Seq<char>,
> {
    Set::new(
        |d: Seq<char>|
            (exists|i: int|
                0 <= i < t.websites@.len() && (#[trigger] t.websites@[i]).domain@ == d
                    && id_in_force(t.profiles@, t.schedules@, t.websites@[i].profile_id@, day, time))
                || t.global_websites@.map_values(|g: String| g@).contains(d),
    )
}

/// The applications that the policy blocks: those of profiles in force.
pub open spec fn blocked_app_set(t: PolicyTables, day: Seq<char>, time: Seq<char>) -> Set<
    Seq<char>,
> {
    Set::new(
        |a: Seq<char>|
            exists|i: int|
                0 <= i < t.apps@.len() && (#[trigger] t.apps@[i]).app_identifier@ == a
                    && id_in_force(t.profiles@, t.schedules@, t.apps@[i].profile_id@, day, time),
    )
}

/// The page rules of a profile, in stored order.
pub open spec fn rules_of(rules: Seq<DomRule>, id: Seq<char>) -> Seq<DomRule> {
    rules.filter(|r: DomRule| r.profile_id@ == id)
}

/// The page rules of the given profiles, profile by profile.
pub open spec fn rules_of_profiles(rules: Seq<DomRule>, profiles: Seq<Profile>) -> Seq<DomRule>
    decreases profiles.len(),
{
    if profiles.len() == 0 {
        seq![]
    } else {
        rules_of_profiles(rules, profiles.drop_last()) + rules_of(rules, profiles.last().id@)
    }
}

/// A character with ASCII capitals taken to small letters.
fn fold_ascii_exec(c: char) -> (f: u32)
    ensures
        f == fold_ascii(c),
{
    let u = c as u32;
    if 65 <= u && u <= 90 {
        u + 32
    } else {
        u
    }
}

/// Whether `t` from `j` on matches the pattern `p` from `i` on, as SQL
/// `LIKE` matches.
fn like_from(p: &Vec<char>, i: usize, t: &Vec<char>, j: usize) -> (b: bool)
    requires
        i <= p.len(),
        j <= t.len(),
    ensures
        b == like(p@.skip(i as int), t@.skip(j as int)),
    decreases (p.len() - i) + (t.len() - j),
{
    let ghost ps = p@.skip(i as int);
    let ghost ts = t@.skip(j as int);
    if i == p.len() {
        return j == t.len();
    }
    assert(ps.skip(1) =~= p@.skip(i + 1));
    assert(ps[0] == p@[i as int]);
    if p[i] == '%' {
        if like_from(p, i + 1, t, j) {
            return true;
        }
        if j == t.len() {
            return false;
        }
        assert(ts.skip(1) =~= t@.skip(j + 1));
        return like_from(p, i, t, j + 1);
    }
    if j == t.len() {
        return false;
    }
    assert(ts.skip(1) =~= t@.skip(j + 1));
    assert(ts[0] == t@[j as int]);
    if p[i] == '_' {
        return like_from(p, i + 1, t, j + 1);
    }
    if fold_ascii_exec(p[i]) != fold_ascii_exec(t[j]) {
        return false;
    }
    like_from(p, i + 1, t, j + 1)
}

/// The pattern for `day`: `%"`, the day, `%`.
fn day_pattern_exec(day: &Vec<char>) -> (p: Vec<char>)
    ensures
        p@ == day_pattern(day@),
{
    let mut p: Vec<char> = Vec::new();
    p.push('%');
    p.push('"');
    let mut k: usize = 0;
    while k < day.len()
        invariant
            k <= day.len(),
            p@ == seq!['%', '"'] + day@.take(k as int),
        decreases day.len() - k,
    {
        p.push(day[k]);
        assert(day@.take(k + 1) =~= day@.take(k as int).push(day@[k as int]));
        k += 1;
    }
    assert(day@.take(day.len() as int) =~= day@);
    p.push('%');
    p
}

/// Whether a schedule covers `day` at `time`.
pub fn schedule_covers(s: &StoredSchedule, day: &Vec<char>, time: &Vec<char>) -> (b: bool)
    ensures
        b == schedule_matches(*s, day@, time@),
{
    let day_ok = match &s.days {
        None => false,
        Some(ds) => {
            let pattern = day_pattern_exec(day);
            let text = chars_of(ds.as_str());
            assert(pattern@.skip(0) =~= pattern@);
            assert(text@.skip(0) =~= text@);
            like_from(&pattern, 0, &text, 0)
        },
    };
    if !day_ok {
        return false;
    }
    let start_ok = match &s.start_time {
        None => false,
        Some(st) => {
            let c = chars_of(st.as_str());
            !chars_less(time, &c)
        },
    };
    if !start_ok {
        return false;
    }
    match &s.end_time {
        None => false,
        Some(et) => {
            let c = chars_of(et.as_str());
            chars_less(time, &c)
        },
    }
}

/// Whether a profile is in force at `day` and `time`.
pub fn profile_is_in_force(p: &Profile, schedules: &Vec<StoredSchedule>, day: &Vec<char>, time: &Vec<char>) -> (b: bool)
    ensures
        b == profile_in_force(*p, schedules@, day@, time@),
{
    if !p.enabled {
        return false;
    }
    let mut has_schedule = false;
    let mut matched = false;
    let mut j: usize = 0;
    while j < schedules.len()
        invariant
            j <= schedules.len(),
            has_schedule == exists|k: int|
                0 <= k < j && (#[trigger] schedules@[k]).profile_id@ == p.id@,
            matched == exists|k: int|
                0 <= k < j && (#[trigger] schedules@[k]).profile_id@ == p.id@ && schedule_matches(
                    schedules@[k],
                    day@,
                    time@,
                ),
        decreases schedules.len() - j,
    {
        if schedules[j].profile_id == p.id {
            has_schedule = true;
            if schedule_covers(&schedules[j], day, time) {
                matched = true;
            }
        }
        j += 1;
    }
    !has_schedule || matched
}

/// For each profile, whether it is in force.
fn in_force_flags(tables: &PolicyTables, day: &Vec<char>, time: &Vec<char>) -> (flags: Vec<bool>)
    ensures
        flags@.len() == tables.profiles@.len(),
        forall|k: int|
            0 <= k < flags@.len() ==> #[trigger] flags@[k] == profile_in_force(
                tables.profiles@[k],
                tables.schedules@,
                day@,
                time@,
            ),
{
    let mut flags: Vec<bool> = Vec::new();
    let mut k: usize = 0;
    while k < tables.profiles.len()
        invariant
            k <= tables.profiles.len(),
            flags@.len() == k,
            forall|m: int|
                0 <= m < k ==> #[trigger] flags@[m] == profile_in_force(
                    tables.profiles@[m],
                    tables.schedules@,
                    day@,
                    time@,
                ),
        decreases tables.profiles.len() - k,
    {
        flags.push(profile_is_in_force(&tables.profiles[k], &tables.schedules, day, time));
        k += 1;
    }
    flags
}

/// Whether some profile with id `id` is in force, given the flags.
fn id_is_in_force(tables: &PolicyTables, flags: &Vec<bool>, id: &String, day: &Vec<char>, time: &Vec<char>) -> (b: bool)
    requires
        flags@.len() == tables.profiles@.len(),
        forall|k: int|
            0 <= k < flags@.len() ==> #[trigger] flags@[k] == profile_in_force(
                tables.profiles@[k],
                tables.schedules@,
                day@,
                time@,
            ),
    ensures
        b == id_in_force(tables.profiles@, tables.schedules@, id@, day@, time@),
{
    let mut k: usize = 0;
    while k < tables.profiles.len()
        invariant
            k <= tables.profiles.len(),
            flags@.len() == tables.profiles@.len(),
            forall|m: int|
                0 <= m < flags@.len() ==> #[trigger] flags@[m] == profile_in_force(
                    tables.profiles@[m],
                    tables.schedules@,
                    day@,
                    time@,
                ),
            forall|m: int|
                0 <= m < k ==> !((#[trigger] tables.profiles@[m]).id@ == id@ && profile_in_force(
                    tables.profiles@[m],
                    tables.schedules@,
                    day@,
                    time@,
                )),
        decreases tables.profiles.len() - k,
    {
        if flags[k] && tables.profiles[k].id == *id {
            return true;
        }
        k += 1;
    }
    false
}

/// A copy of a page rule.
pub fn copy_rule(r: &DomRule) -> (c: DomRule)
    ensures
        c == *r,
{
    DomRule { id: r.id, profile_id: r.profile_id.clone(), site: r.site.clone(), toggle: r.toggle.clone() }
}

/// A copy of a profile.
pub fn copy_profile(p: &Profile) -> (c: Profile)
    ensures
        c == *p,
{
    Profile { id: p.id.clone(), name: p.name.clone(), enabled: p.enabled }
}

/// The profiles that are in force on `current_day` at `current_time`, in
/// stored order. `current_day` is a day name such as `mon`; `current_time`
/// is `HH:MM`.
pub fn active_profiles(tables: &PolicyTables, current_day: &str, current_time: &str) -> (r: Vec<Profile>)
    ensures
        r@ == profiles_in_force(tables.profiles@, tables.schedules@, current_day@, current_time@),
{
    let day = chars_of(current_day);
    let time = chars_of(current_time);
    let mut r: Vec<Profile> = Vec::new();
    let mut k: usize = 0;
    while k < tables.profiles.len()
        invariant
            k <= tables.profiles.len(),
            day@ == current_day@,
            time@ == current_time@,
            r@ == profiles_in_force(tables.profiles@.take(k as int), tables.schedules@, day@, time@),
        decreases tables.profiles.len() - k,
    {
        assert(tables.profiles@.take(k + 1).drop_last() =~= tables.profiles@.take(k as int));
        if profile_is_in_force(&tables.profiles[k], &tables.schedules, &day, &time) {
            r.push(copy_profile(&tables.profiles[k]));
        }
        k += 1;
    }
    assert(tables.profiles@.take(tables.profiles.len() as int) =~= tables.profiles@);
    r
}

/// The merged policy in force on `current_day` at `current_time`: the
/// websites of the profiles in force and the global ones, sorted without
/// repeats; the applications of the profiles in force, sorted without
/// repeats; and the page rules of the profiles in force, profile by profile.
pub fn compute_active_policy(tables: &PolicyTables, current_day: &str, current_time: &str) -> (policy: ActivePolicy)
    ensures
        strictly_sorted(texts(policy.blocked_websites@)),
        texts(policy.blocked_websites@).to_set() == blocked_website_set(
            *tables,
            current_day@,
            current_time@,
        ),
        strictly_sorted(texts(policy.blocked_apps@)),
        texts(policy.blocked_apps@).to_set() == blocked_app_set(*tables, current_day@, current_time@),
        policy.dom_rules@ == rules_of_profiles(
            tables.dom_rules@,
            profiles_in_force(tables.profiles@, tables.schedules@, current_day@, current_time@),
        ),
{
    let day = chars_of(current_day);
    let time = chars_of(current_time);
    let flags = in_force_flags(tables, &day, &time);
    let ghost t = *tables;
    let ghost d = day@;
    let ghost tm = time@;
    let ghost globals = t.global_websites@.map_values(|g: String| g@);

    // Websites of profiles in force.
    let mut websites: Vec<String> = Vec::new();
    let mut i: usize = 0;
    while i < tables.websites.len()
        invariant
            i <= tables.websites.len(),
            t == *tables,
            d == day@,
            tm == time@,
            flags@.len() == tables.profiles@.len(),
            forall|k: int|
                0 <= k < flags@.len() ==> #[trigger] flags@[k] == profile_in_force(
                    tables.profiles@[k],
                    tables.schedules@,
                    day@,
                    time@,
                ),
            strictly_sorted(texts(websites@)),
            texts(websites@).to_set() == Set::new(
                |x: Seq<char>|
                    exists|j: int|
                        0 <= j < i && (#[trigger] t.websites@[j]).domain@ == x && id_in_force(
                            t.profiles@,
                            t.schedules@,
                            t.websites@[j].profile_id@,
                            d,
                            tm,
                        ),
            ),
        decreases tables.websites.len() - i,
    {
        let ghost before = texts(websites@).to_set();
        let w = &tables.websites[i];
        if id_is_in_force(tables, &flags, &w.profile_id, &day, &time) {
            insert_sorted(&mut websites, &w.domain);
        }
        proof {
            let target = Set::new(
                |x: Seq<char>|
                    exists|j: int|
                        0 <= j < i + 1 && (#[trigger] t.websites@[j]).domain@ == x && id_in_force(
                            t.profiles@,
                            t.schedules@,
                            t.websites@[j].profile_id@,
                            d,
                            tm,
                        ),
            );
            assert(texts(websites@).to_set() =~= target);
        }
        i += 1;
    }
    // Global websites.
    let mut g: usize = 0;
    while g < tables.global_websites.len()
        invariant
            g <= tables.global_websites.len(),
            t == *tables,
            d == day@,
            tm == time@,
            globals == t.global_websites@.map_values(|x: String| x@),
            strictly_sorted(texts(websites@)),
            texts(websites@).to_set() == Set::new(
                |x: Seq<char>|
                    (exists|j: int|
                        0 <= j < t.websites@.len() && (#[trigger] t.websites@[j]).domain@ == x
                            && id_in_force(
                            t.profiles@,
                            t.schedules@,
                            t.websites@[j].profile_id@,
                            d,
                            tm,
                        )) || globals.take(g as int).contains(x),
            ),
        decreases tables.global_websites.len() - g,
    {
        insert_sorted(&mut websites, &tables.global_websites[g]);
        proof {
            let target = Set::new(
                |x: Seq<char>|
                    (exists|j: int|
                        0 <= j < t.websites@.len() && (#[trigger] t.websites@[j]).domain@ == x
                            && id_in_force(
                            t.profiles@,
                            t.schedules@,
                            t.websites@[j].profile_id@,
                            d,
                            tm,
                        )) || globals.take(g + 1).contains(x),
            );
            assert(globals.take(g + 1) =~= globals.take(g as int).push(globals[g as int]));
            assert(globals[g as int] == tables.global_websites@[g as int]@);
            assert forall|x: Seq<char>| #[trigger] globals.take(g + 1).contains(x) <==> (
            globals.take(g as int).contains(x) || x == globals[g as int]) by {
                if globals.take(g + 1).contains(x) {
                    let j = choose|j: int| 0 <= j < g + 1 && #[trigger] globals.take(g + 1)[j] == x;
                    if j < g {
                        assert(globals.take(g as int)[j] == x);
                    }
                }
                if globals.take(g as int).contains(x) {
                    let j = choose|j: int| 0 <= j < g && #[trigger] globals.take(g as int)[j] == x;
                    assert(globals.take(g + 1)[j] == x);
                }
                if x == globals[g as int] {
                    assert(globals.take(g + 1)[g as int] == x);
                }
            }
            assert(texts(websites@).to_set() =~= target);
        }
        g += 1;
    }
    assert(globals.take(tables.global_websites.len() as int) =~= globals);
    assert(texts(websites@).to_set() =~= blocked_website_set(t, d, tm));

    // Applications of profiles in force.
    let mut apps: Vec<String> = Vec::new();
    let mut a: usize = 0;
    while a < tables.apps.len()
        invariant
            a <= tables.apps.len(),
            t == *tables,
            d == day@,
            tm == time@,
            flags@.len() == tables.profiles@.len(),
            forall|k: int|
                0 <= k < flags@.len() ==> #[trigger] flags@[k] == profile_in_force(
                    tables.profiles@[k],
                    tables.schedules@,
                    day@,
                    time@,
                ),
            strictly_sorted(texts(apps@)),
            texts(apps@).to_set() == Set::new(
                |x: Seq<char>|
                    exists|j: int|
                        0 <= j < a && (#[trigger] t.apps@[j]).app_identifier@ == x && id_in_force(
                            t.profiles@,
                            t.schedules@,
                            t.apps@[j].profile_id@,
                            d,
                            tm,
                        ),
            ),
        decreases tables.apps.len() - a,
    {
        let app = &tables.apps[a];
        if id_is_in_force(tables, &flags, &app.profile_id, &day, &time) {
            insert_sorted(&mut apps, &app.app_identifier);
        }
        proof {
            let target = Set::new(
                |x: Seq<char>|
                    exists|j: int|
                        0 <= j < a + 1 && (#[trigger] t.apps@[j]).app_identifier@ == x
                            && id_in_force(
                            t.profiles@,
                            t.schedules@,
                            t.apps@[j].profile_id@,
                            d,
                            tm,
                        ),
            );
            assert(texts(apps@).to_set() =~= target);
        }
        a += 1;
    }
    assert(texts(apps@).to_set() =~= blocked_app_set(t, d, tm));

    // Page rules of profiles in force, profile by profile.
    let mut rules: Vec<DomRule> = Vec::new();
    let mut k: usize = 0;
    while k < tables.profiles.len()
        invariant
            k <= tables.profiles.len(),
            t == *tables,
            d == day@,
            tm == time@,
            flags@.len() == tables.profiles@.len(),
            forall|m: int|
                0 <= m < flags@.len() ==> #[trigger] flags@[m] == profile_in_force(
                    tables.profiles@[m],
                    tables.schedules@,
                    day@,
                    time@,
                ),
            rules@ == rules_of_profiles(
                t.dom_rules@,
                profiles_in_force(t.profiles@.take(k as int), t.schedules@, d, tm),
            ),
        decreases tables.profiles.len() - k,
    {
        let ghost pre = profiles_in_force(t.profiles@.take(k as int), t.schedules@, d, tm);
        assert(t.profiles@.take(k + 1).drop_last() =~= t.profiles@.take(k as int));
        assert(t.profiles@.take(k + 1).last() == t.profiles@[k as int]);
        if flags[k] {
            let id = &tables.profiles[k].id;
            let ghost base = rules@;
            let mut r: usize = 0;
            while r < tables.dom_rules.len()
                invariant
                    r <= tables.dom_rules.len(),
                    k < tables.profiles.len(),
                    t == *tables,
                    *id == t.profiles@[k as int].id,
                    rules@ == base + rules_of(t.dom_rules@.take(r as int), id@),
                decreases tables.dom_rules.len() - r,
            {
                assert(t.dom_rules@.take(r + 1).drop_last() =~= t.dom_rules@.take(r as int));
                let ghost f = rules_of(t.dom_rules@.take(r as int), id@);
                let ghost s1 = t.dom_rules@.take(r + 1);
                assert(s1.last() == t.dom_rules@[r as int]);
                reveal(Seq::filter);
                assert(rules_of(s1, id@) == (if s1.last().profile_id@ == id@ {
                    rules_of(s1.drop_last(), id@).push(s1.last())
                } else {
                    rules_of(s1.drop_last(), id@)
                }));
                if tables.dom_rules[r].profile_id == *id {
                    rules.push(copy_rule(&tables.dom_rules[r]));
                    assert((base + f).push(t.dom_rules@[r as int]) =~= base + f.push(
                        t.dom_rules@[r as int],
                    ));
                }
                r += 1;
            }
            assert(t.dom_rules@.take(tables.dom_rules.len() as int) =~= t.dom_rules@);
            assert(pre.push(t.profiles@[k as int]).drop_last() =~= pre);
        }
        k += 1;
    }
    assert(t.profiles@.take(tables.profiles.len() as int) =~= t.profiles@);
    ActivePolicy { blocked_websites: websites, blocked_apps: apps, dom_rules: rules }
}

/// Every globally blocked website is blocked, whatever profiles are in
/// force.
pub proof fn lemma_global_websites_always_blocked(
    t: PolicyTables,
    day: Seq<char>,
    time: Seq<char>,
    i: int,
)
    requires
        0 <= i < t.global_websites@.len(),
    ensures
        blocked_website_set(t, day, time).contains(t.global_websites@[i]@),
{
    let globals = t.global_websites@.map_values(|g: String| g@);
    assert(globals[i] == t.global_websites@[i]@);
}

/// An enabled profile without any schedule is always in force, so its
/// websites are blocked.
pub proof fn lemma_unscheduled_profile_blocks(
    t: PolicyTables,
    day: Seq<char>,
    time: Seq<char>,
    k: int,
    i: int,
)
    requires
        0 <= k < t.profiles@.len(),
        0 <= i < t.websites@.len(),
        t.profiles@[k].enabled,
        forall|j: int| 0 <= j < t.schedules@.len() ==> (#[trigger] t.schedules@[j]).profile_id@ != t.profiles@[k].id@,
        t.websites@[i].profile_id@ == t.profiles@[k].id@,
    ensures
        blocked_website_set(t, day, time).contains(t.websites@[i].domain@),
{
    assert(profile_in_force(t.profiles@[k], t.schedules@, day, time));
    assert(id_in_force(t.profiles@, t.schedules@, t.websites@[i].profile_id@, day, time));
}

/// A profile none of whose schedules covers the moment is not in force, so
/// a website that only it blocks, and that is not global, is not blocked.
pub proof fn lemma_unscheduled_moment_blocks_nothing(
    t: PolicyTables,
    day: Seq<char>,
    time: Seq<char>,
    d: Seq<char>,
)
    requires
        forall|i: int|
            0 <= i < t.websites@.len() && (#[trigger] t.websites@[i]).domain@ == d ==> forall|k: int|
                0 <= k < t.profiles@.len() && (#[trigger] t.profiles@[k]).id@ == t.websites@[i].profile_id@
                    ==> (exists|j: int|
                    0 <= j < t.schedules@.len() && (#[trigger] t.schedules@[j]).profile_id@
                        == t.profiles@[k].id@) && forall|j: int|
                    0 <= j < t.schedules@.len() && (#[trigger] t.schedules@[j]).profile_id@
                        == t.profiles@[k].id@ ==> !schedule_matches(t.schedules@[j], day, time),
        !t.global_websites@.map_values(|g: String| g@).contains(d),
    ensures
        !blocked_website_set(t, day, time).contains(d),
{
    if blocked_website_set(t, day, time).contains(d) {
        let i = choose|i: int|
            0 <= i < t.websites@.len() && (#[trigger] t.websites@[i]).domain@ == d && id_in_force(
                t.profiles@,
                t.schedules@,
                t.websites@[i].profile_id@,
                day,
                time,
            );
        let k = choose|k: int|
            0 <= k < t.profiles@.len() && (#[trigger] t.profiles@[k]).id@ == t.websites@[i].profile_id@
                && profile_in_force(t.profiles@[k], t.schedules@, day, time);
        let j0 = choose|j: int|
            0 <= j < t.schedules@.len() && (#[trigger] t.schedules@[j]).profile_id@ == t.profiles@[k].id@;
        assert(t.schedules@[j0].profile_id@ == t.profiles@[k].id@);
    }
}

/// Whether the profile at `k` is in force at `day` and `time`, spelt out:
/// it is enabled, and either no schedule belongs to it or one of its
/// schedules covers the moment.
pub open spec fn in_force_at(t: PolicyTables, k: int, day: Seq<char>, time: Seq<char>) -> bool {
    let p = t.profiles@[k];
    &&& p.enabled
    &&& (forall|j: int| 0 <= j < t.schedules@.len() ==> (#[trigger] t.schedules@[j]).profile_id@ != p.id@)
        || exists|j: int|
        0 <= j < t.schedules@.len() && (#[trigger] t.schedules@[j]).profile_id@ == p.id@
            && schedule_matches(t.schedules@[j], day, time)
}

/// An application is blocked exactly when a stored entry lists it for a
/// profile that is in force: an app of a profile that is disabled, or
/// whose schedules do not cover the moment, is blocked only if a profile in
/// force lists it too.
pub proof fn lemma_blocked_apps_are_those_of_profiles_in_force(
    t: PolicyTables,
    day: Seq<char>,
    time: Seq<char>,
    a: Seq<char>,
)
    ensures
        blocked_app_set(t, day, time).contains(a) <==> exists|i: int, k: int|
            #![trigger t.apps@[i], t.profiles@[k]]
            0 <= i < t.apps@.len() && t.apps@[i].app_identifier@ == a && 0 <= k < t.profiles@.len()
                && t.profiles@[k].id@ == t.apps@[i].profile_id@ && in_force_at(t, k, day, time),
{
    if blocked_app_set(t, day, time).contains(a) {
        let i = choose|i: int|
            0 <= i < t.apps@.len() && (#[trigger] t.apps@[i]).app_identifier@ == a && id_in_force(
                t.profiles@,
                t.schedules@,
                t.apps@[i].profile_id@,
                day,
                time,
            );
        let k = choose|k: int|
            0 <= k < t.profiles@.len() && (#[trigger] t.profiles@[k]).id@ == t.apps@[i].profile_id@
                && profile_in_force(t.profiles@[k], t.schedules@, day, time);
        assert(in_force_at(t, k, day, time));
    }
    if exists|i: int, k: int|
        #![trigger t.apps@[i], t.profiles@[k]]
        0 <= i < t.apps@.len() && t.apps@[i].app_identifier@ == a && 0 <= k < t.profiles@.len()
            && t.profiles@[k].id@ == t.apps@[i].profile_id@ && in_force_at(t, k, day, time) {
        let (i, k) = choose|i: int, k: int|
            #![trigger t.apps@[i], t.profiles@[k]]
            0 <= i < t.apps@.len() && t.apps@[i].app_identifier@ == a && 0 <= k < t.profiles@.len()
                && t.profiles@[k].id@ == t.apps@[i].profile_id@ && in_force_at(t, k, day, time);
        assert(profile_in_force(t.profiles@[k], t.schedules@, day, time));
        assert(id_in_force(t.profiles@, t.schedules@, t.apps@[i].profile_id@, day, time));
    }
}

/// A website is blocked exactly when it is blocked everywhere, or a stored
/// entry lists it for a profile that is in force.
pub proof fn lemma_blocked_websites_are_global_or_of_profiles_in_force(
    t: PolicyTables,
    day: Seq<char>,
    time: Seq<char>,
    d: Seq<char>,
)
    ensures
        blocked_website_set(t, day, time).contains(d) <==> (exists|g: int|
            0 <= g < t.global_websites@.len() && (#[trigger] t.global_websites@[g])@ == d) || exists|
            i: int,
            k: int,
        |
            #![trigger t.websites@[i], t.profiles@[k]]
            0 <= i < t.websites@.len() && t.websites@[i].domain@ == d && 0 <= k < t.profiles@.len()
                && t.profiles@[k].id@ == t.websites@[i].profile_id@ && in_force_at(t, k, day, time),
{
    let globals = t.global_websites@.map_values(|g: String| g@);
    if globals.contains(d) {
        let g = choose|g: int| 0 <= g < globals.len() && globals[g] == d;
        assert(t.global_websites@[g]@ == d);
    }
    if exists|g: int| 0 <= g < t.global_websites@.len() && (#[trigger] t.global_websites@[g])@ == d {
        let g = choose|g: int| 0 <= g < t.global_websites@.len() && (#[trigger] t.global_websites@[g])@ == d;
        assert(globals[g] == d);
    }
    if exists|i: int|
        0 <= i < t.websites@.len() && (#[trigger] t.websites@[i]).domain@ == d && id_in_force(
            t.profiles@,
            t.schedules@,
            t.websites@[i].profile_id@,
            day,
            time,
        ) {
        let i = choose|i: int|
            0 <= i < t.websites@.len() && (#[trigger] t.websites@[i]).domain@ == d && id_in_force(
                t.profiles@,
                t.schedules@,
                t.websites@[i].profile_id@,
                day,
                time,
            );
        let k = choose|k: int|
            0 <= k < t.profiles@.len() && (#[trigger] t.profiles@[k]).id@ == t.websites@[i].profile_id@
                && profile_in_force(t.profiles@[k], t.schedules@, day, time);
        assert(in_force_at(t, k, day, time));
    }
    if exists|i: int, k: int|
        #![trigger t.websites@[i], t.profiles@[k]]
        0 <= i < t.websites@.len() && t.websites@[i].domain@ == d && 0 <= k < t.profiles@.len()
            && t.profiles@[k].id@ == t.websites@[i].profile_id@ && in_force_at(t, k, day, time) {
        let (i, k) = choose|i: int, k: int|
            #![trigger t.websites@[i], t.profiles@[k]]
            0 <= i < t.websites@.len() && t.websites@[i].domain@ == d && 0 <= k < t.profiles@.len()
                && t.profiles@[k].id@ == t.websites@[i].profile_id@ && in_force_at(t, k, day, time);
        assert(profile_in_force(t.profiles@[k], t.schedules@, day, time));
        assert(id_in_force(t.profiles@, t.schedules@, t.websites@[i].profile_id@, day, time));
    }
}

proof fn lemma_rule_of_listed_profile(rules: Seq<DomRule>, ps: Seq<Profile>, n: int)
    requires
        0 <= n < rules_of_profiles(rules, ps).len(),
    ensures
        exists|j: int| 0 <= j < rules.len() && rules[j] == rules_of_profiles(rules, ps)[n],
        exists|k: int|
            0 <= k < ps.len() && (#[trigger] ps[k]).id@ == rules_of_profiles(rules, ps)[n].profile_id@,
    decreases ps.len(),
{
    let front = rules_of_profiles(rules, ps.drop_last());
    let back = rules_of(rules, ps.last().id@);
    assert(rules_of_profiles(rules, ps) == front + back);
    if n < front.len() {
        lemma_rule_of_listed_profile(rules, ps.drop_last(), n);
        assert((front + back)[n] == front[n]);
        let k = choose|k: int|
            0 <= k < ps.drop_last().len() && (#[trigger] ps.drop_last()[k]).id@ == front[n].profile_id@;
        assert(ps[k] == ps.drop_last()[k]);
    } else {
        let m = n - front.len();
        let pred = |r: DomRule| r.profile_id@ == ps.last().id@;
        assert((front + back)[n] == back[m]);
        rules.lemma_filter_pred(pred, m);
        assert(back.contains(back[m]));
        rules.lemma_filter_contains_rev(pred, back[m]);
        assert(ps[ps.len() - 1] == ps.last());
    }
}

proof fn lemma_listed_profile_in_force(
    profiles: Seq<Profile>,
    schedules: Seq<StoredSchedule>,
    day: Seq<char>,
    time: Seq<char>,
    p: Profile,
)
    requires
        profiles_in_force(profiles, schedules, day, time).contains(p),
    ensures
        exists|k: int| 0 <= k < profiles.len() && profiles[k] == p,
        profile_in_force(p, schedules, day, time),
    decreases profiles.len(),
{
    let rest = profiles_in_force(profiles.drop_last(), schedules, day, time);
    let i = choose|i: int|
        0 <= i < profiles_in_force(profiles, schedules, day, time).len()
            && profiles_in_force(profiles, schedules, day, time)[i] == p;
    if i < rest.len() {
        assert(rest[i] == p);
        lemma_listed_profile_in_force(profiles.drop_last(), schedules, day, time, p);
        let k = choose|k: int| 0 <= k < profiles.drop_last().len() && profiles.drop_last()[k] == p;
        assert(profiles[k] == p);
    } else {
        assert(p == profiles.last());
        assert(profiles[profiles.len() - 1] == p);
    }
}

/// Every page rule of the policy is a stored rule of a profile in force:
/// the rules of a profile that is disabled, or whose schedules do not cover
/// the moment, are left out.
pub proof fn lemma_policy_rules_belong_to_profiles_in_force(
    t: PolicyTables,
    day: Seq<char>,
    time: Seq<char>,
    n: int,
)
    requires
        0 <= n < rules_of_profiles(
            t.dom_rules@,
            profiles_in_force(t.profiles@, t.schedules@, day, time),
        ).len(),
    ensures
        exists|j: int, k: int|
            #![trigger t.dom_rules@[j], t.profiles@[k]]
            0 <= j < t.dom_rules@.len() && t.dom_rules@[j] == rules_of_profiles(
                t.dom_rules@,
                profiles_in_force(t.profiles@, t.schedules@, day, time),
            )[n] && 0 <= k < t.profiles@.len() && t.profiles@[k].id@ == t.dom_rules@[j].profile_id@
                && in_force_at(t, k, day, time),
{
    let ps = profiles_in_force(t.profiles@, t.schedules@, day, time);
    let r = rules_of_profiles(t.dom_rules@, ps)[n];
    lemma_rule_of_listed_profile(t.dom_rules@, ps, n);
    let j = choose|j: int| 0 <= j < t.dom_rules@.len() && t.dom_rules@[j] == r;
    let q = choose|q: int| 0 <= q < ps.len() && (#[trigger] ps[q]).id@ == r.profile_id@;
    assert(ps.contains(ps[q]));
    lemma_listed_profile_in_force(t.profiles@, t.schedules@, day, time, ps[q]);
    let k = choose|k: int| 0 <= k < t.profiles@.len() && t.profiles@[k] == ps[q];
    assert(in_force_at(t, k, day, time));
}

} // verus!
