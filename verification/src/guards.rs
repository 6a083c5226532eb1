//! Security guards: Windows services that are never stopped and processes
//! that are never terminated, whatever a profile asks for.
use crate::text::{ascii_lower, eq_ignore_ascii_case, str_eq_ignore_ascii_case};
use vstd::prelude::*;

verus! {

/// Services that are never stopped.
pub open spec fn protected_services() -> Seq<Seq<char>> {
    seq![
        "lsass"@, "services"@, "winlogon"@, "csrss"@, "smss"@, "wininit"@, "system"@,
        "registry"@, "WinDefend"@, "MpsSvc"@, "EventLog"@, "CryptSvc"@, "RpcSs"@,
        "DcomLaunch"@, "LSM"@, "SamSs"@, "VaultSvc"@, "Netlogon"@, "gpsvc"@, "ProfSvc"@,
        "UserManager"@,
    ]
}

/// Processes that are never terminated.
pub open spec fn protected_processes() -> Seq<Seq<char>> {
    seq![
        "lsass.exe"@, "csrss.exe"@, "winlogon.exe"@, "wininit.exe"@, "smss.exe"@,
        "svchost.exe"@, "system"@, "registry"@, "MsMpEng.exe"@, "dwm.exe"@,
    ]
}

/// Processes that may be terminated, with a warning.
pub open spec fn warned_processes() -> Seq<Seq<char>> {
    seq!["explorer.exe"@, "audiodg.exe"@, "taskmgr.exe"@]
}

/// `name` equals some entry of `list`, ignoring ASCII case.
pub open spec fn listed(list: Seq<Seq<char>>, name: Seq<char>) -> bool {
    exists|i: int| 0 <= i < list.len() && #[trigger] eq_ignore_ascii_case(list[i], name)
}

fn protected_service_list() -> (v: Vec<&'static str>)
    ensures
        v@.map_values(|s: &str| s@) == protected_services(),
{
    let v = vec![
        "lsass", "services", "winlogon", "csrss", "smss", "wininit", "system", "registry",
        "WinDefend", "MpsSvc", "EventLog", "CryptSvc", "RpcSs", "DcomLaunch", "LSM", "SamSs",
        "VaultSvc", "Netlogon", "gpsvc", "ProfSvc", "UserManager",
    ];
    assert(v@.map_values(|s: &str| s@) =~= protected_services());
    v
}

fn protected_process_list() -> (v: Vec<&'static str>)
    ensures
        v@.map_values(|s: &str| s@) == protected_processes(),
{
    let v = vec![
        "lsass.exe", "csrss.exe", "winlogon.exe", "wininit.exe", "smss.exe", "svchost.exe",
        "system", "registry", "MsMpEng.exe", "dwm.exe",
    ];
    assert(v@.map_values(|s: &str| s@) =~= protected_processes());
    v
}

fn warned_process_list() -> (v: Vec<&'static str>)
    ensures
        v@.map_values(|s: &str| s@) == warned_processes(),
{
    let v = vec!["explorer.exe", "audiodg.exe", "taskmgr.exe"];
    assert(v@.map_values(|s: &str| s@) =~= warned_processes());
    v
}

/// Whether some entry of `list` equals `name`, ignoring ASCII case.
fn any_matches(list: &Vec<&'static str>, name: &str) -> (r: bool)
    ensures
        r == listed(list@.map_values(|s: &str| s@), name@),
{
    let ghost l = list@.map_values(|s: &str| s@);
    let mut i: usize = 0;
    while i < list.len()
        invariant
            i <= list@.len(),
            l == list@.map_values(|s: &str| s@),
            forall|j: int| 0 <= j < i ==> !#[trigger] eq_ignore_ascii_case(l[j], name@),
        decreases list@.len() - i,
    {
        if str_eq_ignore_ascii_case(list[i], name) {
            assert(eq_ignore_ascii_case(l[i as int], name@));
            return true;
        }
        i = i + 1;
    }
    false
}

/// Whether `name` is a protected service (compared ignoring ASCII case).
pub fn is_protected_service(name: &str) -> (r: bool)
    ensures
        r == listed(protected_services(), name@),
{
    let list = protected_service_list();
    any_matches(&list, name)
}

/// Whether `name` is a protected process (compared ignoring ASCII case).
pub fn is_protected_process(name: &str) -> (r: bool)
    ensures
        r == listed(protected_processes(), name@),
{
    let list = protected_process_list();
    any_matches(&list, name)
}

/// Whether terminating `name` calls for a warning (compared ignoring ASCII
/// case).
pub fn is_warned_process(name: &str) -> (r: bool)
    ensures
        r == listed(warned_processes(), name@),
{
    let list = warned_process_list();
    any_matches(&list, name)
}

/// Whether a list entry matches does not depend on the ASCII case of the
/// name: two names equal up to ASCII case are both listed or both not.
pub proof fn lemma_listing_ignores_ascii_case(list: Seq<Seq<char>>, a: Seq<char>, b: Seq<char>)
    requires
        eq_ignore_ascii_case(a, b),
    ensures
        listed(list, a) == listed(list, b),
{
    if listed(list, a) {
        let i = choose|i: int| 0 <= i < list.len() && #[trigger] eq_ignore_ascii_case(list[i], a);
        assert forall|k: int| 0 <= k < list[i].len() implies #[trigger] ascii_lower(list[i][k])
            == ascii_lower(b[k]) by {
            assert(ascii_lower(list[i][k]) == ascii_lower(a[k]));
            assert(ascii_lower(a[k]) == ascii_lower(b[k]));
        }
        assert(eq_ignore_ascii_case(list[i], b));
    }
    if listed(list, b) {
        let i = choose|i: int| 0 <= i < list.len() && #[trigger] eq_ignore_ascii_case(list[i], b);
        assert forall|k: int| 0 <= k < list[i].len() implies #[trigger] ascii_lower(list[i][k])
            == ascii_lower(a[k]) by {
            assert(ascii_lower(list[i][k]) == ascii_lower(b[k]));
            assert(ascii_lower(a[k]) == ascii_lower(b[k]));
        }
        assert(eq_ignore_ascii_case(list[i], a));
    }
}

} // verus!
