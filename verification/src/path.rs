//! The per-platform application data directory and its fallback chain.

use vstd::prelude::*;
use vstd::string::*;

verus! {

/// The operating system whose directory conventions apply.
#[derive(Clone, Copy, Debug, PartialEq, Eq, Structural)]
pub enum Platform {
    Windows,
    MacOs,
    Linux,
    /// Any other system: it has no convention of its own, so the current
    /// directory is used.
    Other,
}

/// Whether `c` ends a path component on `platform`.
pub open spec fn is_separator(platform: Platform, c: char) -> bool {
    c == '/' || (platform == Platform::Windows && c == '\\')
}

/// The character that `platform` puts between two path components.
pub open spec fn separator(platform: Platform) -> char {
    if platform == Platform::Windows {
        '\\'
    } else {
        '/'
    }
}

/// `name` appended to the directory `base` as one more component: a separator
/// is put between them unless `base` is empty or already ends in one.
pub open spec fn joined(platform: Platform, base: Seq<char>, name: Seq<char>) -> Seq<char> {
    if base.len() == 0 || is_separator(platform, base.last()) {
        base + name
    } else {
        base.push(separator(platform)) + name
    }
}

/// The application's directory name below the system's per-user data
/// directory.
pub open spec fn primary_name(platform: Platform) -> Seq<char> {
    match platform {
        Platform::Windows | Platform::MacOs => "Sea Lantern"@,
        _ => "sea-lantern"@,
    }
}

/// The application's directory below the user's home directory `home`, used
/// when the system names no data directory.
pub open spec fn home_fallback(platform: Platform, home: Seq<char>) -> Seq<char> {
    match platform {
        Platform::MacOs => joined(
            platform,
            joined(platform, joined(platform, home, "Library"@), "Application Support"@),
            "Sea Lantern"@,
        ),
        _ => joined(platform, home, ".sea-lantern"@),
    }
}

/// The application data directory, given what the system reports: below the
/// data directory if there is one, else below the home directory, else the
/// current directory.
pub open spec fn app_data_dir(
    platform: Platform,
    data_dir: Option<Seq<char>>,
    home_dir: Option<Seq<char>>,
) -> Seq<char> {
    if platform == Platform::Other {
        "."@
    } else {
        match data_dir {
            Some(d) => joined(platform, d, primary_name(platform)),
            None => match home_dir {
                Some(h) => home_fallback(platform, h),
                None => "."@,
            },
        }
    }
}

/// The view of an optional string.
pub open spec fn opt_view(s: Option<String>) -> Option<Seq<char>> {
    match s {
        Some(t) => Some(t@),
        None => None,
    }
}

fn is_separator_char(platform: Platform, c: char) -> (r: bool)
    ensures
        r == is_separator(platform, c),
{
    c == '/' || (platform == Platform::Windows && c == '\\')
}

/// Appends `name` to the directory `base` as one more path component.
pub fn join_dir(platform: Platform, base: &str, name: &str) -> (r: String)
    ensures
        r@ == joined(platform, base@, name@),
{
    let n: usize = base.unicode_len();
    let mut out = String::from_str(base);
    if n > 0 {
        let last = base.get_char(n - 1);
        if !is_separator_char(platform, last) {
            proof {
                reveal_strlit("\\");
                reveal_strlit("/");
            }
            if platform == Platform::Windows {
                out.append("\\");
            } else {
                out.append("/");
            }
            assert(out@ =~= base@.push(separator(platform)));
        }
    }
    out.append(name);
    out
}

/// Asks `dirs_next::data_dir` for the system's per-user data directory and
/// hands it back as text. Nothing is claimed of the answer: it depends on the
/// environment of the process.
#[verifier::external_body]
fn system_data_dir() -> (r: Option<String>) {
    match dirs_next::data_dir() {
        Some(p) => Some(p.to_string_lossy().into_owned()),
        None => None,
    }
}

/// Asks `dirs_next::home_dir` for the user's home directory and hands it back
/// as text. Nothing is claimed of the answer: it depends on the environment of
/// the process.
#[verifier::external_body]
fn system_home_dir() -> (r: Option<String>) {
    match dirs_next::home_dir() {
        Some(p) => Some(p.to_string_lossy().into_owned()),
        None => None,
    }
}

/// The application's directory below the home directory `home`.
pub fn home_fallback_dir(platform: Platform, home: &str) -> (r: String)
    ensures
        r@ == home_fallback(platform, home@),
{
    match platform {
        Platform::MacOs => {
            let library = join_dir(platform, home, "Library");
            let support = join_dir(platform, library.as_str(), "Application Support");
            join_dir(platform, support.as_str(), "Sea Lantern")
        },
        _ => join_dir(platform, home, ".sea-lantern"),
    }
}

/// The application's directory below the system data directory `data_dir`.
pub fn primary_dir(platform: Platform, data_dir: &str) -> (r: String)
    ensures
        r@ == joined(platform, data_dir@, primary_name(platform)),
{
    match platform {
        Platform::Windows | Platform::MacOs => join_dir(platform, data_dir, "Sea Lantern"),
        _ => join_dir(platform, data_dir, "sea-lantern"),
    }
}

/// Picks the application data directory from what the system reported. The
/// first of these that applies wins: the data directory, the home directory,
/// the current directory. It never fails.
pub fn app_data_dir_from(
    platform: Platform,
    data_dir: Option<String>,
    home_dir: Option<String>,
) -> (r: String)
    ensures
        r@ == app_data_dir(platform, opt_view(data_dir), opt_view(home_dir)),
{
    if platform == Platform::Other {
        return String::from_str(".");
    }
    match data_dir {
        Some(d) => primary_dir(platform, d.as_str()),
        None => match home_dir {
            Some(h) => home_fallback_dir(platform, h.as_str()),
            None => String::from_str("."),
        },
    }
}

/// Resolves the application data directory for `platform` from the running
/// system. The home directory is asked for only when no data directory is
/// reported. Whatever the system answers, the result is the directory that
/// `app_data_dir` picks for those answers, and it is never empty.
pub fn get_app_data_dir(platform: Platform) -> (r: String)
    ensures
        exists|data_dir: Option<Seq<char>>, home_dir: Option<Seq<char>>|
            r@ == app_data_dir(platform, data_dir, home_dir),
        r@.len() > 0,
{
    let data_dir = system_data_dir();
    if data_dir.is_some() {
        let r = app_data_dir_from(platform, data_dir, None);
        proof {
            lemma_app_data_dir_not_empty(platform, opt_view(data_dir), None);
        }
        assert(r@ == app_data_dir(platform, opt_view(data_dir), None));
        r
    } else {
        let home_dir = system_home_dir();
        let r = app_data_dir_from(platform, None, home_dir);
        proof {
            lemma_app_data_dir_not_empty(platform, None, opt_view(home_dir));
        }
        assert(r@ == app_data_dir(platform, None, opt_view(home_dir)));
        r
    }
}

/// Joining keeps both parts: the result starts with the directory, ends with
/// the name, and is at most one character longer than the two together.
pub proof fn lemma_joined_keeps_parts(platform: Platform, base: Seq<char>, name: Seq<char>)
    ensures
        base.is_prefix_of(joined(platform, base, name)),
        name.is_suffix_of(joined(platform, base, name)),
        base.len() + name.len() <= joined(platform, base, name).len() <= base.len() + name.len()
            + 1,
{
    let j = joined(platform, base, name);
    assert(j.subrange(0, base.len() as int) =~= base);
    assert(j.subrange(j.len() - name.len(), j.len() as int) =~= name);
}

/// Where the system reports a data directory, the home directory plays no
/// part: the application data directory lies below the data directory.
pub proof fn lemma_data_dir_wins(
    platform: Platform,
    data_dir: Seq<char>,
    home_a: Option<Seq<char>>,
    home_b: Option<Seq<char>>,
)
    ensures
        app_data_dir(platform, Some(data_dir), home_a) == app_data_dir(
            platform,
            Some(data_dir),
            home_b,
        ),
        platform != Platform::Other ==> data_dir.is_prefix_of(
            app_data_dir(platform, Some(data_dir), home_a),
        ),
{
    lemma_joined_keeps_parts(platform, data_dir, primary_name(platform));
}

/// Whatever the system reports, the application data directory is not the
/// empty path.
pub proof fn lemma_app_data_dir_not_empty(
    platform: Platform,
    data_dir: Option<Seq<char>>,
    home_dir: Option<Seq<char>>,
)
    ensures
        app_data_dir(platform, data_dir, home_dir).len() > 0,
{
    reveal_strlit(".");
    reveal_strlit("Sea Lantern");
    reveal_strlit("sea-lantern");
    reveal_strlit(".sea-lantern");
}

/// Without a data directory but with a home directory, the application data
/// directory lies strictly below the home directory: it is the home
/// fallback, and the home directory is a proper prefix of it.
pub proof fn lemma_falls_back_to_home(platform: Platform, home: Seq<char>)
    requires
        platform != Platform::Other,
    ensures
        app_data_dir(platform, None, Some(home)) == home_fallback(platform, home),
        home.is_prefix_of(app_data_dir(platform, None, Some(home))),
        app_data_dir(platform, None, Some(home)).len() > home.len(),
{
    reveal_strlit("Sea Lantern");
    reveal_strlit(".sea-lantern");
    reveal_strlit("Library");
    reveal_strlit("Application Support");
    if platform == Platform::MacOs {
        let a = joined(platform, home, "Library"@);
        let b = joined(platform, a, "Application Support"@);
        let c = joined(platform, b, "Sea Lantern"@);
        lemma_joined_keeps_parts(platform, home, "Library"@);
        lemma_joined_keeps_parts(platform, a, "Application Support"@);
        lemma_joined_keeps_parts(platform, b, "Sea Lantern"@);
        assert(home =~= c.subrange(0, home.len() as int)) by {
            assert(a == b.subrange(0, a.len() as int));
            assert(b == c.subrange(0, b.len() as int));
            assert(home == a.subrange(0, home.len() as int));
        }
    } else {
        lemma_joined_keeps_parts(platform, home, ".sea-lantern"@);
    }
}

} // verus!
