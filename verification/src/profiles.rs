//! Profiles as the application keeps them: file names, the order of the
//! profile list, copies, imports and the profile used to restore an
//! interrupted session.
use crate::model::{new_profile_id, Profile};
use crate::text::{
    chars_of, owned, replace_char, replace_char_in, str_eq, to_lowercase, unicode_lowercase,
};
use crate::time::{now, Timestamp};
use vstd::prelude::*;
use vstd::string::StringExecFns;

verus! {

broadcast use vstd::string::group_string_axioms;

/// The directory that holds the profiles.
pub fn profiles_dir() -> (d: String)
    ensures
        d@ == "profiles"@,
{
    owned("profiles")
}

/// The file a profile named `name` is saved in: the name with spaces turned
/// into dashes, in lower case, with the `.json` extension.
pub open spec fn profile_file(name: Seq<char>) -> Seq<char> {
    unicode_lowercase(replace_char(name, ' ', '-')) + ".json"@
}

/// The file name of the profile named `name`.
pub fn profile_file_name(name: &str) -> (f: String)
    ensures
        f@ == profile_file(name@),
{
    let dashed = replace_char_in(name, ' ', '-');
    let lower = to_lowercase(dashed.as_str());
    lower.concat(".json")
}

/// The name the profile editor derives from an executable's file stem:
/// lower case, spaces turned into dashes.
pub open spec fn name_from_stem(stem: Seq<char>) -> Seq<char> {
    replace_char(unicode_lowercase(stem), ' ', '-')
}

/// The profile name derived from the file stem of a chosen executable.
pub fn profile_name_from_stem(stem: &str) -> (n: String)
    ensures
        n@ == name_from_stem(stem@),
{
    let lower = to_lowercase(stem);
    replace_char_in(lower.as_str(), ' ', '-')
}

/// Where the extension of file name `f` starts: after its last dot, when
/// that dot is not the first character (`Path::extension`).
pub open spec fn extension_start(f: Seq<char>, n: int) -> Option<int>
    decreases n,
{
    if n <= 0 {
        None
    } else if f[n - 1] == '.' {
        if n - 1 > 0 {
            Some(n)
        } else {
            None
        }
    } else {
        extension_start(f, n - 1)
    }
}

/// `f` names a JSON file: its extension is `json`.
pub open spec fn is_json_file(f: Seq<char>) -> bool {
    match extension_start(f, f.len() as int) {
        Some(k) => f.skip(k) == "json"@,
        None => false,
    }
}

/// Whether the file named `file_name` is loaded as a profile.
pub fn is_json_file_name(file_name: &str) -> (b: bool)
    ensures
        b == is_json_file(file_name@),
{
    let cs = chars_of(file_name);
    let ghost f = file_name@;
    let mut n: usize = cs.len();
    while n > 0 && cs[n - 1] != '.'
        invariant
            cs@ == f,
            n <= f.len(),
            extension_start(f, f.len() as int) == extension_start(f, n as int),
        decreases n,
    {
        n = n - 1;
    }
    if n <= 1 {
        return false;
    }
    let mut ext: Vec<char> = Vec::new();
    let mut k: usize = n;
    while k < cs.len()
        invariant
            cs@ == f,
            n <= k <= f.len(),
            ext@ == f.subrange(n as int, k as int),
        decreases f.len() - k,
    {
        ext.push(cs[k]);
        assert(ext@ =~= f.subrange(n as int, k + 1));
        k = k + 1;
    }
    assert(ext@ =~= f.skip(n as int));
    proof {
        reveal_strlit("json");
    }
    let is_json = ext.len() == 4 && ext[0] == 'j' && ext[1] == 's' && ext[2] == 'o' && ext[3] == 'n';
    if is_json {
        assert(ext@ =~= "json"@);
    }
    is_json
}

/// `a` comes before `b` or equals it, comparing character by character by
/// code point (the order of `str`).
pub open spec fn lex_le(a: Seq<char>, b: Seq<char>) -> bool
    decreases a.len(),
{
    if a.len() == 0 {
        true
    } else if b.len() == 0 {
        false
    } else if (a[0] as u32) != (b[0] as u32) {
        (a[0] as u32) < (b[0] as u32)
    } else {
        lex_le(a.skip(1), b.skip(1))
    }
}

/// Of any two texts, one comes first.
pub proof fn lemma_lex_total(a: Seq<char>, b: Seq<char>)
    ensures
        lex_le(a, b) || lex_le(b, a),
    decreases a.len(),
{
    if a.len() > 0 && b.len() > 0 && (a[0] as u32) == (b[0] as u32) {
        lemma_lex_total(a.skip(1), b.skip(1));
    }
}

/// The order is transitive.
pub proof fn lemma_lex_trans(a: Seq<char>, b: Seq<char>, c: Seq<char>)
    requires
        lex_le(a, b),
        lex_le(b, c),
    ensures
        lex_le(a, c),
    decreases a.len(),
{
    if a.len() > 0 && b.len() > 0 && c.len() > 0 && (a[0] as u32) == (b[0] as u32) && (b[0] as u32)
        == (c[0] as u32) {
        lemma_lex_trans(a.skip(1), b.skip(1), c.skip(1));
    }
}

/// The order is decided at the first character where the texts differ, by
/// code point: when `a` and `b` agree on their first `n` characters and
/// differ at position `n`, `a` comes first exactly when its character there
/// has the smaller code point; and a text comes before every text it is a
/// prefix of.
pub proof fn lemma_lex_first_difference(a: Seq<char>, b: Seq<char>, n: int)
    requires
        0 <= n <= a.len(),
        n <= b.len(),
        forall|i: int| 0 <= i < n ==> a[i] == b[i],
    ensures
        n < a.len() && n < b.len() && a[n] != b[n] ==> lex_le(a, b) == ((a[n] as u32) < (b[n] as u32)),
        n == a.len() ==> lex_le(a, b),
    decreases n,
{
    if n > 0 {
        crate::wide::lemma_char_range(a[0]);
        crate::wide::lemma_char_range(b[0]);
        assert((a[0] as u32) == (b[0] as u32));
        lemma_lex_first_difference(a.skip(1), b.skip(1), n - 1);
    } else if n < a.len() && n < b.len() && a[n] != b[n] {
        crate::wide::lemma_char_range(a[0]);
        crate::wide::lemma_char_range(b[0]);
    }
}

/// Whether `a` comes before `b` or equals it.
pub fn str_lex_le(a: &str, b: &str) -> (r: bool)
    ensures
        r == lex_le(a@, b@),
{
    let av = chars_of(a);
    let bv = chars_of(b);
    let mut i: usize = 0;
    assert(a@.skip(0) =~= a@);
    assert(b@.skip(0) =~= b@);
    while i < av.len() && i < bv.len() && av[i] == bv[i]
        invariant
            av@ == a@,
            bv@ == b@,
            i <= av@.len(),
            i <= bv@.len(),
            lex_le(a@, b@) == lex_le(a@.skip(i as int), b@.skip(i as int)),
        decreases av@.len() - i,
    {
        assert(a@.skip(i as int).skip(1) =~= a@.skip(i + 1));
        assert(b@.skip(i as int).skip(1) =~= b@.skip(i + 1));
        i = i + 1;
    }
    if i == av.len() {
        assert(a@.skip(i as int).len() == 0);
        true
    } else if i == bv.len() {
        assert(b@.skip(i as int).len() == 0);
        false
    } else {
        proof {
            let x = av@[i as int];
            let y = bv@[i as int];
            assert(a@.skip(i as int)[0] == x);
            assert(b@.skip(i as int)[0] == y);
            crate::wide::lemma_char_range(x);
            crate::wide::lemma_char_range(y);
            assert((x as u32) != (y as u32));
        }
        (av[i] as u32) < (bv[i] as u32)
    }
}

/// The profiles are in order of their friendly names.
pub open spec fn sorted_by_friendly_name(s: Seq<Profile>) -> bool {
    forall|i: int, j: int|
        0 <= i < j < s.len() ==> lex_le(#[trigger] s[i].friendly_name@, #[trigger] s[j].friendly_name@)
}

/// Whether a profile is shown as `name`.
pub open spec fn shown_as(name: Seq<char>) -> spec_fn(Profile) -> bool {
    |p: Profile| p.friendly_name@ == name
}

/// The profiles of `s` shown as `name`, in their order in `s`.
pub open spec fn with_friendly_name(s: Seq<Profile>, name: Seq<char>) -> Seq<Profile> {
    s.filter(shown_as(name))
}

/// The order is reflexive.
pub proof fn lemma_lex_refl(a: Seq<char>)
    ensures
        lex_le(a, a),
    decreases a.len(),
{
    if a.len() > 0 {
        lemma_lex_refl(a.skip(1));
    }
}

/// A sequence none of whose items passes `pred` filters to nothing.
proof fn lemma_filter_none<A>(s: Seq<A>, pred: spec_fn(A) -> bool)
    requires
        forall|i: int| 0 <= i < s.len() ==> !pred(#[trigger] s[i]),
    ensures
        s.filter(pred) == Seq::<A>::empty(),
    decreases s.len(),
{
    reveal(Seq::filter);
    if s.len() > 0 {
        lemma_filter_none(s.drop_last(), pred);
    }
}

/// The profile list in order of friendly names: the same profiles, sorted;
/// profiles with equal friendly names keep their order.
pub fn sort_profiles(profiles: Vec<Profile>) -> (r: Vec<Profile>)
    ensures
        sorted_by_friendly_name(r@),
        r@.to_multiset() == profiles@.to_multiset(),
        forall|name: Seq<char>| #[trigger] with_friendly_name(r@, name) == with_friendly_name(profiles@, name),
{
    broadcast use vstd::seq_lib::group_to_multiset_ensures, vstd::multiset::group_multiset_axioms;

    let mut input = profiles;
    let ghost orig = input@;
    let mut r: Vec<Profile> = Vec::new();
    assert(r@.to_multiset() =~= vstd::multiset::Multiset::empty());
    assert(r@.to_multiset().add(input@.to_multiset()) =~= orig.to_multiset());
    while input.len() > 0
        invariant
            sorted_by_friendly_name(r@),
            r@.to_multiset().add(input@.to_multiset()) == orig.to_multiset(),
            forall|name: Seq<char>| #[trigger] with_friendly_name(orig, name)
                == with_friendly_name(input@, name) + with_friendly_name(r@, name),
        decreases input@.len(),
    {
        let ghost before = input@;
        let p = input.pop().unwrap();
        assert(before =~= input@.push(p));
        let mut k: usize = 0;
        while k < r.len() && !str_lex_le(p.friendly_name.as_str(), r[k].friendly_name.as_str())
            invariant
                k <= r@.len(),
                forall|i: int| 0 <= i < k ==> !lex_le(p.friendly_name@, #[trigger] r@[i].friendly_name@),
            decreases r@.len() - k,
        {
            k = k + 1;
        }
        let ghost old_r = r@;
        proof {
            assert forall|i: int| 0 <= i < k implies lex_le(#[trigger] old_r[i].friendly_name@, p.friendly_name@) by {
                lemma_lex_total(old_r[i].friendly_name@, p.friendly_name@);
            }
            assert forall|m: int| k <= m < old_r.len() implies lex_le(p.friendly_name@, #[trigger] old_r[m].friendly_name@) by {
                if m > k {
                    lemma_lex_trans(p.friendly_name@, old_r[k as int].friendly_name@, old_r[m].friendly_name@);
                }
            }
        }
        r.insert(k, p);
        proof {
            assert forall|i: int, j: int| 0 <= i < j < r@.len() implies lex_le(#[trigger] r@[i].friendly_name@, #[trigger] r@[j].friendly_name@) by {
                if i < k && j == k {
                } else if i < k && j > k {
                    lemma_lex_trans(old_r[i].friendly_name@, p.friendly_name@, old_r[j - 1].friendly_name@);
                } else if i == k {
                } else if j < k {
                } else {
                    assert(r@[i] == old_r[i - 1] && r@[j] == old_r[j - 1]);
                }
            }
            assert(r@ == old_r.insert(k as int, p));
            vstd::seq_lib::to_multiset_insert(old_r, k as int, p);
            vstd::seq_lib::to_multiset_build(input@, p);
            assert(r@.to_multiset().add(input@.to_multiset()) =~= orig.to_multiset());
            let front = old_r.take(k as int);
            let back = old_r.skip(k as int);
            assert(old_r =~= front + back);
            assert(r@ =~= front + seq![p] + back);
            assert forall|name: Seq<char>| #[trigger] with_friendly_name(orig, name)
                == with_friendly_name(input@, name) + with_friendly_name(r@, name) by {
                let pred = shown_as(name);
                input@.lemma_filter_push(p, pred);
                assert(before == input@.push(p));
                Seq::filter_distributes_over_add(front, back, pred);
                Seq::filter_distributes_over_add(front + seq![p], back, pred);
                Seq::filter_distributes_over_add(front, seq![p], pred);
                Seq::<Profile>::empty().lemma_filter_push(p, pred);
                assert(seq![p] =~= Seq::<Profile>::empty().push(p));
                assert(Seq::<Profile>::empty().filter(pred) =~= Seq::<Profile>::empty()) by {
                    reveal(Seq::filter);
                }
                if p.friendly_name@ == name {
                    assert forall|i: int| 0 <= i < front.len() implies !pred(#[trigger] front[i]) by {
                        lemma_lex_refl(p.friendly_name@);
                        assert(front[i] == old_r[i]);
                    }
                    lemma_filter_none(front, pred);
                    assert(with_friendly_name(input@, name) + with_friendly_name(r@, name)
                        =~= input@.filter(pred).push(p) + back.filter(pred));
                    assert(with_friendly_name(before, name) + with_friendly_name(old_r, name)
                        =~= input@.filter(pred).push(p) + back.filter(pred));
                } else {
                    assert(with_friendly_name(r@, name) =~= with_friendly_name(old_r, name));
                }
            }
        }
    }
    assert(input@ =~= Seq::<Profile>::empty());
    assert(r@.to_multiset().add(input@.to_multiset()) =~= r@.to_multiset());
    assert forall|name: Seq<char>| #[trigger] with_friendly_name(r@, name) == with_friendly_name(orig, name) by {
        assert(with_friendly_name(input@, name) =~= Seq::<Profile>::empty()) by {
            reveal(Seq::filter);
        }
        assert(with_friendly_name(input@, name) + with_friendly_name(r@, name) =~= with_friendly_name(r@, name));
    }
    r
}

/// `p` is a copy of `source` with a fresh identity and new times, named
/// `name` and shown as `friendly_name`.
pub open spec fn renamed_copy(p: Profile, source: Profile, name: Seq<char>, friendly_name: Seq<char>) -> bool {
    &&& p.name@ == name
    &&& p.friendly_name@ == friendly_name
    &&& p.executable_path == source.executable_path
    &&& p.launch_args == source.launch_args
    &&& p.working_directory == source.working_directory
    &&& p.services@ == source.services@
    &&& p.processes@ == source.processes@
    &&& p.scheduled_tasks@ == source.scheduled_tasks@
    &&& p.process_priority == source.process_priority
    &&& p.cpu_affinity == source.cpu_affinity
    &&& p.gpu_preference == source.gpu_preference
    &&& p.memory_optimization == source.memory_optimization
    &&& p.delays == source.delays
    &&& p.notes == source.notes
    &&& p.icon_path == source.icon_path
}

/// The copy made by the profile list's Duplicate button: a new identity and
/// new times, `-copy` appended to the name and ` (Copy)` to the friendly
/// name; every setting kept.
pub fn duplicate_profile(source: &Profile) -> (p: Profile)
    ensures
        renamed_copy(p, *source, source.name@ + "-copy"@, source.friendly_name@ + " (Copy)"@),
{
    let mut p = source.copied();
    p.id = new_profile_id();
    p.name = source.name.clone().concat("-copy");
    p.friendly_name = source.friendly_name.clone().concat(" (Copy)");
    p.created_at = now();
    p.updated_at = now();
    p
}

/// `p` with every setting kept, given the identity `id` and the times
/// `created_at` and `updated_at`.
pub fn with_identity(p: Profile, id: uuid::Uuid, created_at: Timestamp, updated_at: Timestamp) -> (r: Profile)
    ensures
        r.same_settings(p),
        r.id == id,
        r.created_at == created_at,
        r.updated_at == updated_at,
{
    let mut r = p;
    r.id = id;
    r.created_at = created_at;
    r.updated_at = updated_at;
    r
}

/// An imported profile: every setting as loaded, with a fresh identity and
/// new times so that it does not collide with the profile it came from.
/// The identity is random and the times are read from the clock, so nothing
/// is stated of them; `with_identity` states how they are put in.
pub fn import_profile(loaded: Profile) -> (p: Profile)
    ensures
        renamed_copy(p, loaded, loaded.name@, loaded.friendly_name@),
{
    let id = new_profile_id();
    let created_at = now();
    let updated_at = now();
    with_identity(loaded, id, created_at, updated_at)
}

/// Where the first profile shown as `name` stands in `profiles`.
pub fn find_profile_by_friendly_name(profiles: &Vec<Profile>, name: &str) -> (r: Option<usize>)
    ensures
        r matches Some(i) ==> i < profiles@.len() && profiles@[i as int].friendly_name@ == name@
            && forall|j: int| 0 <= j < i ==> #[trigger] profiles@[j].friendly_name@ != name@,
        r is None ==> forall|j: int| 0 <= j < profiles@.len() ==> #[trigger] profiles@[j].friendly_name@ != name@,
{
    let mut i: usize = 0;
    while i < profiles.len()
        invariant
            i <= profiles@.len(),
            forall|j: int| 0 <= j < i ==> #[trigger] profiles@[j].friendly_name@ != name@,
        decreases profiles@.len() - i,
    {
        if str_eq(profiles[i].friendly_name.as_str(), name) {
            return Some(i);
        }
        i = i + 1;
    }
    None
}

/// The profile used to restore an interrupted session of the profile shown
/// as `name`: a copy of the first profile with that name, or else a new
/// profile carrying only that name.
pub fn recovery_profile(profiles: &Vec<Profile>, name: &str) -> (p: Profile)
    ensures
        (exists|j: int| 0 <= j < profiles@.len() && #[trigger] profiles@[j].friendly_name@ == name@)
            ==> exists|i: int|
            0 <= i < profiles@.len() && #[trigger] profiles@[i].friendly_name@ == name@ && (forall|
                j: int,
            | 0 <= j < i ==> #[trigger] profiles@[j].friendly_name@ != name@) && p.same_settings(
                profiles@[i],
            ) && p.id == profiles@[i].id,
        (forall|j: int| 0 <= j < profiles@.len() ==> #[trigger] profiles@[j].friendly_name@ != name@)
            ==> p.friendly_name@ == name@ && p.has_default_settings_but_friendly_name(),
{
    match find_profile_by_friendly_name(profiles, name) {
        Some(i) => profiles[i].copied(),
        None => {
            let mut p = Profile::default();
            p.friendly_name = owned(name);
            p
        },
    }
}

/// The text of an optional editor field: an empty field means none.
pub fn optional_text(s: String) -> (r: Option<String>)
    ensures
        s@.len() == 0 ==> r is None,
        s@.len() > 0 ==> r == Some(s),
{
    if s.as_str().is_empty() {
        None
    } else {
        Some(s)
    }
}

} // verus!
