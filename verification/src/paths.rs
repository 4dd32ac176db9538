//! Platform-aware resolution of the target app's data directory, database
//! path, install-search roots and well-known Windows install locations. All
//! of it is pure string computation over the environment's directories, which
//! callers obtain from the host (see `host`) and pass in as plain values.

use vstd::prelude::*;

use crate::host::path_exists;
use crate::host::path_is_file;
use crate::OsKind;

verus! {

/// The path separator the OS kind uses.
pub open spec fn sep_seq(os: OsKind) -> Seq<char> {
    if os == OsKind::Windows {
        "\\"@
    } else {
        "/"@
    }
}

/// `dir` joined with one further component, under the OS kind's separator.
pub open spec fn spec_join(os: OsKind, dir: Seq<char>, name: Seq<char>) -> Seq<char> {
    dir + sep_seq(os) + name
}

/// Joins one path component onto `dir` with the OS kind's separator.
pub fn join_path(os: OsKind, dir: &str, name: &str) -> (r: String)
    ensures
        r@ == spec_join(os, dir@, name@),
{
    let sep: &str = if let OsKind::Windows = os {
        "\\"
    } else {
        "/"
    };
    String::from_str(dir).concat(sep).concat(name)
}

/// The per-user storage subtree of the target app under a base directory:
/// `<base>/Antigravity/User/globalStorage`.
pub open spec fn spec_storage_dir(os: OsKind, base: Seq<char>) -> Seq<char> {
    spec_join(os, spec_join(os, spec_join(os, base, "Antigravity"@), "User"@), "globalStorage"@)
}

/// The target app's data directory for an environment whose config directory
/// and data directory are as given (`None` where the OS reports none):
/// Windows keys off the config directory, macOS and other systems off the
/// data directory, and Linux prefers the config directory but falls back to
/// the data directory when the OS has no config directory.
pub open spec fn spec_data_dir(
    os: OsKind,
    config_dir: Option<Seq<char>>,
    data_dir: Option<Seq<char>>,
) -> Option<Seq<char>> {
    match os {
        OsKind::Windows => match config_dir {
            Some(c) => Some(spec_storage_dir(os, c)),
            None => None,
        },
        OsKind::Macos => match data_dir {
            Some(d) => Some(spec_storage_dir(os, d)),
            None => None,
        },
        OsKind::Linux => match config_dir {
            Some(c) => Some(spec_storage_dir(os, c)),
            None => match data_dir {
                Some(d) => Some(spec_storage_dir(os, d)),
                None => None,
            },
        },
        OsKind::Other => match data_dir {
            Some(d) => Some(spec_storage_dir(os, d)),
            None => None,
        },
    }
}

/// The fixed file name of the target app's state database.
pub open spec fn db_file_name() -> Seq<char> {
    "state.vscdb"@
}

/// The target app's database path: its data directory joined with the fixed
/// database file name, and `None` exactly where the data directory is `None`.
pub open spec fn spec_db_path(
    os: OsKind,
    config_dir: Option<Seq<char>>,
    data_dir: Option<Seq<char>>,
) -> Option<Seq<char>> {
    match spec_data_dir(os, config_dir, data_dir) {
        Some(d) => Some(spec_join(os, d, db_file_name())),
        None => None,
    }
}

/// Joins the target app's storage subtree onto `base`.
fn storage_dir(os: OsKind, base: &str) -> (r: String)
    ensures
        r@ == spec_storage_dir(os, base@),
{
    let a = join_path(os, base, "Antigravity");
    let b = join_path(os, a.as_str(), "User");
    join_path(os, b.as_str(), "globalStorage")
}

/// The target app's data directory, from the environment's config and data
/// directories. A missing OS directory degrades to `None`; it is never an
/// error.
pub fn get_antigravity_data_dir(
    os: OsKind,
    config_dir: &Option<String>,
    data_dir: &Option<String>,
) -> (r: Option<String>)
    ensures
        r.deep_view() == spec_data_dir(os, config_dir.deep_view(), data_dir.deep_view()),
{
    let base: Option<&String> = match os {
        OsKind::Windows => config_dir.as_ref(),
        OsKind::Macos => data_dir.as_ref(),
        OsKind::Linux => match config_dir.as_ref() {
            Some(c) => Some(c),
            None => data_dir.as_ref(),
        },
        OsKind::Other => data_dir.as_ref(),
    };
    match base {
        Some(b) => Some(storage_dir(os, b.as_str())),
        None => None,
    }
}

/// The target app's state-database path: the data directory joined with
/// `state.vscdb`, and `None` exactly where the data directory is undefined.
pub fn get_antigravity_db_path(
    os: OsKind,
    config_dir: &Option<String>,
    data_dir: &Option<String>,
) -> (r: Option<String>)
    ensures
        r.deep_view() == spec_db_path(os, config_dir.deep_view(), data_dir.deep_view()),
{
    match get_antigravity_data_dir(os, config_dir, data_dir) {
        Some(d) => Some(join_path(os, d.as_str(), "state.vscdb")),
        None => None,
    }
}

/// For every environment, the database path is defined exactly where the data
/// directory is, and is then that directory joined with `state.vscdb`.
pub proof fn lemma_db_path_follows_data_dir(
    os: OsKind,
    config_dir: Option<Seq<char>>,
    data_dir: Option<Seq<char>>,
)
    ensures
        spec_db_path(os, config_dir, data_dir) is Some <==> spec_data_dir(
            os,
            config_dir,
            data_dir,
        ) is Some,
        spec_db_path(os, config_dir, data_dir) matches Some(p) ==> p == spec_join(
            os,
            spec_data_dir(os, config_dir, data_dir)->Some_0,
            db_file_name(),
        ),
{
}

/// Whether the target app looks installed and initialized: its database file
/// exists. `false` whenever the database path itself is undefined.
pub fn is_antigravity_available(
    os: OsKind,
    config_dir: &Option<String>,
    data_dir: &Option<String>,
) -> (r: bool)
    ensures
        spec_db_path(os, config_dir.deep_view(), data_dir.deep_view()) is None ==> !r,
        r ==> spec_db_path(os, config_dir.deep_view(), data_dir.deep_view()) is Some,
{
    match get_antigravity_db_path(os, config_dir, data_dir) {
        Some(p) => path_exists(p.as_str()),
        None => false,
    }
}

/// The candidate install roots for an environment: the data directory and
/// the config directory, each joined with the app name, in that order,
/// skipping the ones the OS does not report.
pub open spec fn spec_install_roots(
    os: OsKind,
    data_dir: Option<Seq<char>>,
    config_dir: Option<Seq<char>>,
) -> Seq<Seq<char>> {
    let from_data: Seq<Seq<char>> = match data_dir {
        Some(d) => seq![spec_join(os, d, "Antigravity"@)],
        None => seq![],
    };
    let from_config: Seq<Seq<char>> = match config_dir {
        Some(c) => seq![spec_join(os, c, "Antigravity"@)],
        None => seq![],
    };
    from_data + from_config
}

/// The ordered install-search roots: user data directory first, then config
/// directory, each joined with the app name; missing directories are skipped.
pub fn find_antigravity_installations(
    os: OsKind,
    data_dir: &Option<String>,
    config_dir: &Option<String>,
) -> (r: Vec<String>)
    ensures
        r.deep_view() == spec_install_roots(os, data_dir.deep_view(), config_dir.deep_view()),
{
    let mut roots: Vec<String> = Vec::new();
    if let Some(d) = data_dir.as_ref() {
        roots.push(join_path(os, d.as_str(), "Antigravity"));
    }
    if let Some(c) = config_dir.as_ref() {
        roots.push(join_path(os, c.as_str(), "Antigravity"));
    }
    proof {
        assert(roots.deep_view() =~= spec_install_roots(
            os,
            data_dir.deep_view(),
            config_dir.deep_view(),
        ));
    }
    roots
}

/// The well-known Windows install locations of the target app's executable,
/// in precedence order: two user-home-relative locations, the local-programs
/// location, then the two machine-wide Program Files locations.
pub open spec fn spec_windows_candidates(
    home: Option<Seq<char>>,
    data_local: Option<Seq<char>>,
) -> Seq<Seq<char>> {
    let from_home: Seq<Seq<char>> = match home {
        Some(h) => seq![
            spec_join(OsKind::Windows, h, "AppData\\Local\\Programs\\Antigravity\\Antigravity.exe"@),
            spec_join(
                OsKind::Windows,
                h,
                "AppData\\Roaming\\Local\\Programs\\Antigravity\\Antigravity.exe"@,
            ),
        ],
        None => seq![],
    };
    let from_local: Seq<Seq<char>> = match data_local {
        Some(l) => seq![spec_join(OsKind::Windows, l, "Programs\\Antigravity\\Antigravity.exe"@)],
        None => seq![],
    };
    from_home + from_local + seq![
        "C:\\Program Files\\Antigravity\\Antigravity.exe"@,
        "C:\\Program Files (x86)\\Antigravity\\Antigravity.exe"@,
    ]
}

/// The ordered well-known Windows install locations, from the environment's
/// home directory and local-data directory.
pub fn get_antigravity_windows_paths(
    home: &Option<String>,
    data_local: &Option<String>,
) -> (r: Vec<String>)
    ensures
        r.deep_view() == spec_windows_candidates(home.deep_view(), data_local.deep_view()),
{
    let mut candidates: Vec<String> = Vec::new();
    if let Some(h) = home.as_ref() {
        candidates.push(
            join_path(OsKind::Windows, h.as_str(), "AppData\\Local\\Programs\\Antigravity\\Antigravity.exe"),
        );
        candidates.push(
            join_path(
                OsKind::Windows,
                h.as_str(),
                "AppData\\Roaming\\Local\\Programs\\Antigravity\\Antigravity.exe",
            ),
        );
    }
    if let Some(l) = data_local.as_ref() {
        candidates.push(join_path(OsKind::Windows, l.as_str(), "Programs\\Antigravity\\Antigravity.exe"));
    }
    candidates.push(String::from_str("C:\\Program Files\\Antigravity\\Antigravity.exe"));
    candidates.push(String::from_str("C:\\Program Files (x86)\\Antigravity\\Antigravity.exe"));
    proof {
        assert(candidates.deep_view() =~= spec_windows_candidates(
            home.deep_view(),
            data_local.deep_view(),
        ));
    }
    candidates
}

/// The path probed when validating an install directory: the directory
/// joined with the fixed database file name, one level down and no deeper.
pub fn installation_db_path(os: OsKind, dir: &str) -> (r: String)
    ensures
        r@ == spec_join(os, dir@, db_file_name()),
{
    join_path(os, dir, "state.vscdb")
}

/// The validation rule with the probe outcomes given: a directory is a valid
/// install exactly when something stands at its database path and that is a
/// regular file — a directory of the same name, or nothing at all, fails.
pub fn installation_valid_checked(db_exists: bool, db_is_file: bool) -> (r: bool)
    ensures
        r == (db_exists && db_is_file),
{
    db_exists && db_is_file
}

/// Whether `dir` holds a file literally named `state.vscdb` directly under
/// it: probes exactly `dir` joined with that name — one level down, never
/// deeper — and applies the validation rule to the two probe outcomes, which
/// are the host file system's answers.
pub fn validate_antigravity_path(os: OsKind, dir: &str) -> bool {
    let probe = installation_db_path(os, dir);
    let db_exists = path_exists(probe.as_str());
    let db_is_file = path_is_file(probe.as_str());
    installation_valid_checked(db_exists, db_is_file)
}

/// One entry of a directory, as the host listed it: its file name and
/// whether a regular file stands there.
pub struct DirEntry {
    pub name: String,
    pub is_file: bool,
}

/// One install root, as the host listed it: the root's path, whether the
/// root exists, and its direct entries (empty where it does not exist). A
/// root that does not exist is skipped without error.
pub struct DirListing {
    pub root: String,
    pub root_exists: bool,
    pub entries: Vec<DirEntry>,
}

/// The database files among a root's direct entries: each regular file
/// literally named `state.vscdb`, as its full path under the root — one
/// level down, never deeper.
pub open spec fn spec_matching_db_paths(os: OsKind, root: Seq<char>, entries: Seq<DirEntry>) -> Seq<
    Seq<char>,
>
    decreases entries.len(),
{
    if entries.len() == 0 {
        Seq::empty()
    } else {
        let head: Seq<Seq<char>> = if entries[0].is_file && entries[0].name@ == db_file_name() {
            seq![spec_join(os, root, entries[0].name@)]
        } else {
            Seq::empty()
        };
        head + spec_matching_db_paths(os, root, entries.skip(1))
    }
}

/// The database files one listing contributes: none where its root does not
/// exist, else the matching entries under its root.
pub open spec fn spec_listing_db_paths(os: OsKind, listing: DirListing) -> Seq<Seq<char>> {
    if listing.root_exists {
        spec_matching_db_paths(os, listing.root@, listing.entries@)
    } else {
        Seq::empty()
    }
}

/// The database files of a row of listings, in order.
pub open spec fn spec_listings_db_paths(os: OsKind, listings: Seq<DirListing>) -> Seq<Seq<char>>
    decreases listings.len(),
{
    if listings.len() == 0 {
        Seq::empty()
    } else {
        spec_listing_db_paths(os, listings[0]) + spec_listings_db_paths(os, listings.skip(1))
    }
}

/// Every possible database path: the primary one (where defined) first, then
/// every stray `state.vscdb` found directly under the listed install roots.
pub open spec fn spec_all_db_paths(
    os: OsKind,
    main_db: Option<Seq<char>>,
    listings: Seq<DirListing>,
) -> Seq<Seq<char>> {
    let head: Seq<Seq<char>> = match main_db {
        Some(m) => seq![m],
        None => Seq::empty(),
    };
    head + spec_listings_db_paths(os, listings)
}

/// All possible database paths of the target app: the primary database path
/// computed from the environment, then each `state.vscdb` standing as a
/// regular file directly inside a listed install root. `listings` is the
/// host's one-level listing of each root from `find_antigravity_installations`.
pub fn get_all_antigravity_db_paths(
    os: OsKind,
    config_dir: &Option<String>,
    data_dir: &Option<String>,
    listings: &Vec<DirListing>,
) -> (r: Vec<String>)
    ensures
        r.deep_view() == spec_all_db_paths(
            os,
            spec_db_path(os, config_dir.deep_view(), data_dir.deep_view()),
            listings@,
        ),
{
    let ghost goal = spec_all_db_paths(
        os,
        spec_db_path(os, config_dir.deep_view(), data_dir.deep_view()),
        listings@,
    );
    let mut r: Vec<String> = Vec::new();
    match get_antigravity_db_path(os, config_dir, data_dir) {
        Some(main_db) => {
            r.push(main_db);
        },
        None => {},
    }
    proof {
        assert(listings@.skip(0) =~= listings@);
        assert(goal =~= r.deep_view() + spec_listings_db_paths(os, listings@.skip(0)));
    }
    let mut i: usize = 0;
    while i < listings.len()
        invariant
            i <= listings@.len(),
            goal == r.deep_view() + spec_listings_db_paths(os, listings@.skip(i as int)),
        decreases listings@.len() - i,
    {
        proof {
            assert(listings@.skip(i as int)[0] == listings@[i as int]);
            assert(listings@.skip(i as int).skip(1) =~= listings@.skip(i as int + 1));
        }
        let listing = &listings[i];
        if listing.root_exists {
            let ghost rest = spec_listings_db_paths(os, listings@.skip(i as int + 1));
            proof {
                assert(listing.entries@.skip(0) =~= listing.entries@);
                assert(goal =~= r.deep_view() + spec_matching_db_paths(
                    os,
                    listing.root@,
                    listing.entries@.skip(0),
                ) + rest);
            }
            let mut j: usize = 0;
            while j < listing.entries.len()
                invariant
                    j <= listing.entries@.len(),
                    goal == r.deep_view() + spec_matching_db_paths(
                        os,
                        listing.root@,
                        listing.entries@.skip(j as int),
                    ) + rest,
                decreases listing.entries@.len() - j,
            {
                proof {
                    assert(listing.entries@.skip(j as int)[0] == listing.entries@[j as int]);
                    assert(listing.entries@.skip(j as int).skip(1) =~= listing.entries@.skip(
                        j as int + 1,
                    ));
                }
                let entry = &listing.entries[j];
                if entry.is_file && entry.name == String::from_str("state.vscdb") {
                    let ghost before = r.deep_view();
                    r.push(join_path(os, listing.root.as_str(), entry.name.as_str()));
                    proof {
                        assert(r.deep_view() =~= before.push(
                            spec_join(os, listing.root@, entry.name@),
                        ));
                        assert(goal =~= r.deep_view() + spec_matching_db_paths(
                            os,
                            listing.root@,
                            listing.entries@.skip(j as int + 1),
                        ) + rest);
                    }
                } else {
                    proof {
                        assert(goal =~= r.deep_view() + spec_matching_db_paths(
                            os,
                            listing.root@,
                            listing.entries@.skip(j as int + 1),
                        ) + rest);
                    }
                }
                j = j + 1;
            }
            proof {
                assert(listing.entries@.skip(listing.entries@.len() as int).len() == 0);
            }
        }
        i = i + 1;
    }
    proof {
        assert(listings@.skip(listings@.len() as int).len() == 0);
        assert(goal =~= r.deep_view());
    }
    r
}

} // verus!
