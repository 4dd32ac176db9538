//! Process discovery and termination for the target app, and the resolver
//! that composes the persisted path, the well-known install locations and the
//! running processes into one precedence order. Enumerating the process table
//! is sysinfo's, behind trusted items; running the platform kill command is
//! the host's, which hands each attempt's outcome back to the verified
//! aggregation here.

use vstd::prelude::*;

use crate::config::load_persisted_antigravity_path;
use crate::config::persist_antigravity_path;
use crate::config::path_key;
use crate::config::spec_config_fields;
use crate::host::host_data_local_dir;
use crate::host::host_home_dir;
use crate::host::path_is_file;
use crate::paths::get_antigravity_windows_paths;
use crate::OsKind;

verus! {

#[verifier::external_type_specification]
#[verifier::external_body]
pub struct ExSystem(sysinfo::System);

/// Relies on sysinfo::System::new: a fresh, empty view of the process table.
#[verifier::external_body]
fn system_new() -> sysinfo::System {
    sysinfo::System::new()
}

/// Relies on sysinfo::System::refresh_processes: loads the live process
/// table. What it holds depends on the machine at the moment of the call.
#[verifier::external_body]
fn system_refresh_processes(s: &mut sysinfo::System) {
    s.refresh_processes();
}

/// Relies on sysinfo::System::processes_by_exact_name and
/// sysinfo::Process::exe: for each process whose name is exactly `name`, its
/// executable path, or `None` where the OS reports none. The outcome depends
/// on the machine.
#[verifier::external_body]
fn processes_exe_paths(s: &sysinfo::System, name: &str) -> Vec<Option<String>> {
    s.processes_by_exact_name(name).map(
        |p| p.exe().map(|e| e.to_string_lossy().to_string()),
    ).collect()
}

/// The ordered process-name patterns tried when finding or terminating the
/// target app, or `None` on an OS where termination is not defined: the two
/// case variants of the image name on Windows, the two case variants of the
/// command-line substring elsewhere.
pub open spec fn spec_kill_patterns(os: OsKind) -> Option<Seq<Seq<char>>> {
    match os {
        OsKind::Windows => Some(seq!["Antigravity.exe"@, "Antigravity"@]),
        OsKind::Macos => Some(seq!["Antigravity"@, "antigravity"@]),
        OsKind::Linux => Some(seq!["Antigravity"@, "antigravity"@]),
        OsKind::Other => None,
    }
}

/// The error message for an OS on which termination is not defined.
pub open spec fn unsupported_os_message() -> Seq<char> {
    "unsupported operating system"@
}

/// The ordered termination patterns for the OS, or the unsupported-OS error
/// on an OS where termination is not defined — returned before any attempt.
pub fn kill_patterns(os: OsKind) -> (r: Result<Vec<String>, String>)
    ensures
        r matches Ok(ps) ==> spec_kill_patterns(os) == Some(ps.deep_view()),
        r matches Err(e) ==> spec_kill_patterns(os) is None && e@ == unsupported_os_message(),
{
    match os {
        OsKind::Windows => {
            let mut ps: Vec<String> = Vec::new();
            ps.push(String::from_str("Antigravity.exe"));
            ps.push(String::from_str("Antigravity"));
            proof {
                assert(ps.deep_view() =~= seq!["Antigravity.exe"@, "Antigravity"@]);
            }
            Ok(ps)
        },
        OsKind::Macos | OsKind::Linux => {
            let mut ps: Vec<String> = Vec::new();
            ps.push(String::from_str("Antigravity"));
            ps.push(String::from_str("antigravity"));
            proof {
                assert(ps.deep_view() =~= seq!["Antigravity"@, "antigravity"@]);
            }
            Ok(ps)
        },
        OsKind::Other => Err(String::from_str("unsupported operating system")),
    }
}

/// The outcome of one termination attempt, as the host observed it: the kill
/// command exited successfully; it ran and reported failure, with its
/// diagnostic text; or it could not be run at all.
pub enum KillAttempt {
    Succeeded,
    Failed(String),
    CouldNotRun(String),
}

/// The success message attributing the termination to the pattern that
/// succeeded.
pub open spec fn success_message(pattern: Seq<char>) -> Seq<char> {
    "terminated Antigravity processes ("@ + pattern + ")"@
}

/// The failure message for one pattern's attempt, carrying the command's
/// diagnostic text.
pub open spec fn failure_message(pattern: Seq<char>, diagnostic: Seq<char>) -> Seq<char> {
    "failed to terminate Antigravity processes ("@ + pattern + "): "@ + diagnostic
}

/// The error message when the kill command itself could not be run.
pub open spec fn run_failure_message(diagnostic: Seq<char>) -> Seq<char> {
    "failed to run the termination command: "@ + diagnostic
}

/// The aggregate of ordered termination attempts: success attributed to the
/// first pattern that succeeded; a command that could not be run aborts with
/// its error; and when every attempt fails, the failure of the last attempt
/// made — earlier failures are discarded. `last_error` is what a run out of
/// attempts reports.
pub open spec fn spec_aggregate(
    patterns: Seq<Seq<char>>,
    attempts: Seq<KillAttempt>,
    last_error: Seq<char>,
) -> Result<Seq<char>, Seq<char>>
    decreases attempts.len(),
{
    if attempts.len() == 0 || patterns.len() == 0 {
        Err(last_error)
    } else {
        match attempts[0] {
            KillAttempt::Succeeded => Ok(success_message(patterns[0])),
            KillAttempt::Failed(diagnostic) => spec_aggregate(
                patterns.skip(1),
                attempts.skip(1),
                failure_message(patterns[0], diagnostic@),
            ),
            KillAttempt::CouldNotRun(diagnostic) => Err(run_failure_message(diagnostic@)),
        }
    }
}

/// Folds the outcomes of the ordered termination attempts into the one
/// result the caller sees. `attempts[i]` is the outcome for `patterns[i]`;
/// the host stops attempting after a success or a command it could not run,
/// so the attempts may be fewer than the patterns.
pub fn aggregate_kill_attempts(patterns: &Vec<String>, attempts: &Vec<KillAttempt>) -> (r: Result<
    String,
    String,
>)
    requires
        attempts@.len() <= patterns@.len(),
    ensures
        r matches Ok(m) ==> (spec_aggregate(patterns.deep_view(), attempts@, Seq::empty())
            matches Ok(s) && s == m@),
        r matches Err(e) ==> (spec_aggregate(patterns.deep_view(), attempts@, Seq::empty())
            matches Err(s) && s == e@),
{
    let ghost all_patterns = patterns.deep_view();
    let ghost all_attempts = attempts@;
    let mut last_error = String::new();
    let mut i: usize = 0;
    proof {
        assert(all_patterns.skip(0) =~= all_patterns);
        assert(all_attempts.skip(0) =~= all_attempts);
    }
    while i < attempts.len()
        invariant
            i <= attempts@.len(),
            attempts@.len() <= patterns@.len(),
            all_patterns == patterns.deep_view(),
            all_attempts == attempts@,
            spec_aggregate(all_patterns, all_attempts, Seq::empty()) == spec_aggregate(
                all_patterns.skip(i as int),
                all_attempts.skip(i as int),
                last_error@,
            ),
        decreases attempts@.len() - i,
    {
        proof {
            assert(all_attempts.skip(i as int)[0] == attempts@[i as int]);
            assert(all_patterns.skip(i as int)[0] == all_patterns[i as int]);
            assert(all_patterns[i as int] == patterns@[i as int]@);
            assert(all_patterns.skip(i as int).skip(1) =~= all_patterns.skip(i as int + 1));
            assert(all_attempts.skip(i as int).skip(1) =~= all_attempts.skip(i as int + 1));
        }
        match &attempts[i] {
            KillAttempt::Succeeded => {
                let m = String::from_str("terminated Antigravity processes (").concat(
                    patterns[i].as_str(),
                ).concat(")");
                return Ok(m);
            },
            KillAttempt::Failed(diagnostic) => {
                let m = String::from_str("failed to terminate Antigravity processes (").concat(
                    patterns[i].as_str(),
                ).concat("): ").concat(diagnostic.as_str());
                last_error = m;
            },
            KillAttempt::CouldNotRun(diagnostic) => {
                let m = String::from_str("failed to run the termination command: ").concat(
                    diagnostic.as_str(),
                );
                return Err(m);
            },
        }
        i = i + 1;
    }
    proof {
        assert(all_attempts.skip(i as int).len() == 0);
    }
    Err(last_error)
}

/// Fallback across two patterns, stated over the aggregate: when the first
/// attempt fails and the second succeeds, the result is success attributed to
/// the second pattern; when both fail, the result is the failure of the
/// second — the last one tried.
pub proof fn lemma_two_pattern_fallback(
    first: Seq<char>,
    second: Seq<char>,
    a1: KillAttempt,
    a2: KillAttempt,
)
    ensures
        a1 is Failed && a2 is Succeeded ==> spec_aggregate(
            seq![first, second],
            seq![a1, a2],
            Seq::empty(),
        ) == Ok::<Seq<char>, Seq<char>>(success_message(second)),
        a1 is Failed && a2 is Failed ==> spec_aggregate(
            seq![first, second],
            seq![a1, a2],
            Seq::empty(),
        ) == Err::<Seq<char>, Seq<char>>(failure_message(second, a2->Failed_0@)),
{
    let patterns = seq![first, second];
    let attempts = seq![a1, a2];
    reveal_with_fuel(spec_aggregate, 4);
    if a1 is Failed {
        assert(attempts[0] == a1 && patterns[0] == first);
        assert(patterns.skip(1) =~= seq![second]);
        assert(attempts.skip(1) =~= seq![a2]);
        assert(patterns.skip(1)[0] == second);
        assert(attempts.skip(1)[0] == a2);
        assert(patterns.skip(1).skip(1) =~= Seq::<Seq<char>>::empty());
        assert(attempts.skip(1).skip(1) =~= Seq::<KillAttempt>::empty());
    }
}

/// The reported executable paths kept by their validation flags: in order,
/// each path that the enumeration reported and whose flag is true; matches
/// with no reported path are dropped whatever their flag.
pub open spec fn spec_validated(paths: Seq<Option<Seq<char>>>, valid: Seq<bool>) -> Seq<Seq<char>>
    decreases paths.len(),
{
    if paths.len() == 0 || valid.len() == 0 {
        Seq::empty()
    } else {
        let head: Seq<Seq<char>> = match paths[0] {
            Some(p) => if valid[0] {
                seq![p]
            } else {
                Seq::empty()
            },
            None => Seq::empty(),
        };
        head + spec_validated(paths.skip(1), valid.skip(1))
    }
}

/// Appends to `out` exactly the reported paths whose validation flag is true,
/// in the order the enumeration reported them; exe-less and unvalidated
/// matches are dropped. `valid[i]` states whether `paths[i]` validated.
pub fn keep_validated(paths: &Vec<Option<String>>, valid: &Vec<bool>, out: &mut Vec<String>)
    requires
        paths@.len() == valid@.len(),
    ensures
        final(out).deep_view() == old(out).deep_view() + spec_validated(
            paths.deep_view(),
            valid@,
        ),
{
    let ghost goal = old(out).deep_view() + spec_validated(paths.deep_view(), valid@);
    proof {
        assert(paths.deep_view().skip(0) =~= paths.deep_view());
        assert(valid@.skip(0) =~= valid@);
    }
    let mut i: usize = 0;
    while i < paths.len()
        invariant
            i <= paths@.len(),
            paths@.len() == valid@.len(),
            goal == out.deep_view() + spec_validated(
                paths.deep_view().skip(i as int),
                valid@.skip(i as int),
            ),
        decreases paths@.len() - i,
    {
        proof {
            assert(paths.deep_view().skip(i as int)[0] == paths.deep_view()[i as int]);
            assert(paths.deep_view()[i as int] == paths@[i as int].deep_view());
            assert(valid@.skip(i as int)[0] == valid@[i as int]);
            assert(paths.deep_view().skip(i as int).skip(1) =~= paths.deep_view().skip(
                i as int + 1,
            ));
            assert(valid@.skip(i as int).skip(1) =~= valid@.skip(i as int + 1));
        }
        if let Some(p) = &paths[i] {
            if valid[i] {
                let ghost before = out.deep_view();
                out.push(p.clone());
                proof {
                    assert(out.deep_view() =~= before.push(p@));
                    assert(goal =~= out.deep_view() + spec_validated(
                        paths.deep_view().skip(i as int + 1),
                        valid@.skip(i as int + 1),
                    ));
                }
            }
        }
        i = i + 1;
    }
    proof {
        assert(paths.deep_view().skip(paths@.len() as int).len() == 0);
        assert(goal =~= out.deep_view());
    }
}

/// One validation flag for each reported path: whether it currently names a
/// regular file on the host, and false outright where no path was reported.
fn probe_validity(paths: &Vec<Option<String>>) -> (valid: Vec<bool>)
    ensures
        valid@.len() == paths@.len(),
{
    let mut valid: Vec<bool> = Vec::new();
    let mut i: usize = 0;
    while i < paths.len()
        invariant
            valid@.len() == i,
            i <= paths@.len(),
        decreases paths@.len() - i,
    {
        let flag = match &paths[i] {
            Some(p) => path_is_file(p.as_str()),
            None => false,
        };
        valid.push(flag);
        i = i + 1;
    }
    valid
}

/// The ordered process-name variants used to discover the target app on the
/// one OS where discovery is defined: the image name with and without its
/// extension, matched exactly.
pub open spec fn spec_discovery_names() -> Seq<Seq<char>> {
    seq!["Antigravity.exe"@, "Antigravity"@]
}

/// The ordered discovery name variants, exactly `spec_discovery_names`.
pub fn discovery_names() -> (r: Vec<String>)
    ensures
        r.deep_view() == spec_discovery_names(),
{
    let mut names: Vec<String> = Vec::new();
    names.push(String::from_str("Antigravity.exe"));
    names.push(String::from_str("Antigravity"));
    proof {
        assert(names.deep_view() =~= spec_discovery_names());
    }
    names
}

/// The executable paths of the target app's running processes: one pass per
/// discovery name variant, in `discovery_names` order, keeping in order
/// exactly the matches whose executable path is reported and currently names
/// a regular file (see `keep_validated`). The process table is enumerated
/// once per call and nothing is cached. Defined only on Windows; empty
/// elsewhere.
pub fn find_running_antigravity_exes(os: OsKind) -> (r: Vec<String>)
    ensures
        os != OsKind::Windows ==> r@.len() == 0,
{
    let mut found: Vec<String> = Vec::new();
    if let OsKind::Windows = os {
        let names = discovery_names();
        let mut system = system_new();
        system_refresh_processes(&mut system);
        let mut i: usize = 0;
        while i < names.len()
            invariant
                i <= names@.len(),
            decreases names@.len() - i,
        {
            let reported = processes_exe_paths(&system, names[i].as_str());
            let flags = probe_validity(&reported);
            keep_validated(&reported, &flags, &mut found);
            i = i + 1;
        }
    }
    found
}

/// Whether any matching process of the target app is running. Process
/// discovery is defined only on Windows; `false` on every other OS.
pub fn is_antigravity_process_running(os: OsKind) -> (r: bool)
    ensures
        os != OsKind::Windows ==> !r,
{
    let running = find_running_antigravity_exes(os);
    running.len() > 0
}

/// The index of the first `true` in a row of validity flags.
pub open spec fn first_valid_index(valid: Seq<bool>) -> Option<int>
    decreases valid.len(),
{
    if valid.len() == 0 {
        None
    } else if valid[0] {
        Some(0)
    } else {
        match first_valid_index(valid.skip(1)) {
            Some(i) => Some(i + 1),
            None => None,
        }
    }
}

/// A row whose first `true` stands at `i` — nothing true before it — has
/// first valid index `i`.
proof fn lemma_first_valid_at(valid: Seq<bool>, i: int)
    requires
        0 <= i < valid.len(),
        valid[i],
        forall|j: int| 0 <= j < i ==> !valid[j],
    ensures
        first_valid_index(valid) == Some(i),
    decreases i,
{
    if i == 0 {
    } else {
        lemma_first_valid_at(valid.skip(1), i - 1);
    }
}

/// A row with nothing true has no first valid index.
proof fn lemma_first_valid_none(valid: Seq<bool>)
    requires
        forall|j: int| 0 <= j < valid.len() ==> !valid[j],
    ensures
        first_valid_index(valid) is None,
    decreases valid.len(),
{
    if valid.len() > 0 {
        lemma_first_valid_none(valid.skip(1));
    }
}

/// The precedence order of executable-path resolution, over given facts:
/// a persisted and still-valid path wins; else the first well-known install
/// location that validated; else the path of the first running matching
/// process; else nothing. `valid[i]` states whether `candidates[i]`
/// validated.
pub fn choose_executable(
    persisted: Option<String>,
    candidates: &Vec<String>,
    valid: &Vec<bool>,
    running: &Vec<String>,
) -> (r: Option<String>)
    requires
        candidates@.len() == valid@.len(),
    ensures
        persisted is Some ==> r == persisted,
        persisted is None ==> (first_valid_index(valid@) matches Some(i) ==> (r matches Some(c)
            && c@ == candidates.deep_view()[i])),
        persisted is None && first_valid_index(valid@) is None && running@.len() > 0 ==> (
        r matches Some(c) && c@ == running.deep_view()[0]),
        persisted is None && first_valid_index(valid@) is None && running@.len() == 0 ==> r
            is None,
{
    match persisted {
        Some(p) => {
            return Some(p);
        },
        None => {},
    }
    let mut i: usize = 0;
    while i < valid.len()
        invariant
            persisted is None,
            i <= valid@.len(),
            candidates@.len() == valid@.len(),
            forall|j: int| 0 <= j < i ==> !valid@[j],
        decreases valid@.len() - i,
    {
        if valid[i] {
            proof {
                lemma_first_valid_at(valid@, i as int);
            }
            return Some(candidates[i].clone());
        }
        i = i + 1;
    }
    proof {
        lemma_first_valid_none(valid@);
    }
    if running.len() > 0 {
        return Some(running[0].clone());
    }
    None
}

/// What one resolution pass yields: the resolved executable path, if any, and
/// the new config text to write where the resolution is to be cached — the
/// caching write is best-effort, so discovery succeeds whether or not the
/// caller manages to write it.
pub struct ResolveOutcome {
    pub path: Option<String>,
    pub config_to_write: Option<String>,
}

/// Resolves the target app's executable path, on the one OS whose install
/// location is ambiguous. Precedence: the persisted and still-valid path;
/// else the first well-known install location holding a regular file, which
/// is also persisted; else the path of a running matching process, also
/// persisted; else nothing. On every other OS, `None` without any work.
/// `current_text` is the config file's current text.
pub fn resolve_antigravity_exe_windows(os: OsKind, current_text: Option<&str>) -> (r:
    ResolveOutcome)
    ensures
        os != OsKind::Windows ==> r.path is None && r.config_to_write is None,
        r.path is Some ==> os == OsKind::Windows,
        r.path is None ==> r.config_to_write is None,
        r.config_to_write matches Some(t) ==> (r.path matches Some(p) && spec_config_fields(
            Some(t@),
        ) == spec_config_fields(current_text.deep_view()).insert(path_key(), (true, p@))),
{
    if let OsKind::Windows = os {
        if let Some(p) = load_persisted_antigravity_path(os, current_text) {
            return ResolveOutcome { path: Some(p), config_to_write: None };
        }
        let home = host_home_dir();
        let data_local = host_data_local_dir();
        let candidates = get_antigravity_windows_paths(&home, &data_local);
        let mut valid: Vec<bool> = Vec::new();
        let mut i: usize = 0;
        while i < candidates.len()
            invariant
                valid@.len() == i,
                i <= candidates@.len(),
            decreases candidates@.len() - i,
        {
            valid.push(path_is_file(candidates[i].as_str()));
            i = i + 1;
        }
        let running = find_running_antigravity_exes(os);
        match choose_executable(None, &candidates, &valid, &running) {
            Some(p) => {
                let config_to_write = match persist_antigravity_path(os, p.as_str(), current_text)
                {
                    Ok(text) => text,
                    Err(_) => None,
                };
                ResolveOutcome { path: Some(p), config_to_write }
            },
            None => ResolveOutcome { path: None, config_to_write: None },
        }
    } else {
        ResolveOutcome { path: None, config_to_write: None }
    }
}

} // verus!
