use vstd::prelude::*;
use vstd::string::*;

verus! {

/// The text of a decimal digit.
pub open spec fn digit_of(d: int) -> Seq<char> {
    if d == 0 {
        "0"@
    } else if d == 1 {
        "1"@
    } else if d == 2 {
        "2"@
    } else if d == 3 {
        "3"@
    } else if d == 4 {
        "4"@
    } else if d == 5 {
        "5"@
    } else if d == 6 {
        "6"@
    } else if d == 7 {
        "7"@
    } else if d == 8 {
        "8"@
    } else {
        "9"@
    }
}

/// The decimal digits of a natural number, without leading zeros.
pub open spec fn digits_of(n: nat) -> Seq<char>
    decreases n,
{
    if n < 10 {
        digit_of(n as int)
    } else {
        digits_of(n / 10) + digit_of((n % 10) as int)
    }
}

/// An integer in decimal, with a minus sign before a negative one.
pub open spec fn decimal_of(n: int) -> Seq<char> {
    if n < 0 {
        "-"@ + digits_of((-n) as nat)
    } else {
        digits_of(n as nat)
    }
}

fn digit(d: u64) -> (r: &'static str)
    requires
        d < 10,
    ensures
        r@ == digit_of(d as int),
{
    if d == 0 {
        "0"
    } else if d == 1 {
        "1"
    } else if d == 2 {
        "2"
    } else if d == 3 {
        "3"
    } else if d == 4 {
        "4"
    } else if d == 5 {
        "5"
    } else if d == 6 {
        "6"
    } else if d == 7 {
        "7"
    } else if d == 8 {
        "8"
    } else {
        "9"
    }
}

fn digits(n: u64) -> (r: String)
    ensures
        r@ == digits_of(n as nat),
    decreases n,
{
    if n < 10 {
        String::from_str(digit(n))
    } else {
        let mut text = digits(n / 10);
        text.append(digit(n % 10));
        text
    }
}

/// Writes a number in decimal.
pub fn decimal(n: i32) -> (r: String)
    ensures
        r@ == decimal_of(n as int),
{
    if n < 0 {
        let mut text = String::from_str("-");
        let size: i64 = -(n as i64);
        text.append(digits(size as u64).as_str());
        text
    } else {
        digits(n as u64)
    }
}

/// A directory and a name below it, with one slash between them, whatever
/// the directory ends in: the path of a cached file.
pub open spec fn joined(dir: Seq<char>, name: Seq<char>) -> Seq<char> {
    dir + "/"@ + name
}

/// Joins a directory and a name below it.
pub fn join(dir: &str, name: &str) -> (r: String)
    ensures
        r@ == joined(dir@, name@),
{
    let mut path = String::from_str(dir);
    path.append("/");
    path.append(name);
    path
}

/// What a cached response is known by: the year it belongs to, if it belongs
/// to one, and its file name. Two keys with the same year and name stand for
/// the same cached response.
#[derive(Clone, Debug, PartialEq, Eq)]
pub struct CacheKey {
    pub year: Option<i32>,
    pub filename: String,
}

pub struct CacheKeyView {
    pub year: Option<int>,
    pub filename: Seq<char>,
}

impl View for CacheKey {
    type V = CacheKeyView;

    open spec fn view(&self) -> CacheKeyView {
        CacheKeyView {
            year: match self.year {
                Some(y) => Some(y as int),
                None => None,
            },
            filename: self.filename@,
        }
    }
}

/// The file of a key below the cache's directory `base`: in the year's
/// subdirectory where the key has a year, directly in `base` where not.
pub open spec fn path_of(base: Seq<char>, key: CacheKeyView) -> Seq<char> {
    match key.year {
        Some(y) => joined(joined(base, decimal_of(y)), key.filename),
        None => joined(base, key.filename),
    }
}

/// The path of a key's file. It touches nothing on disk.
pub fn resolve_path(base: &str, key: &CacheKey) -> (r: String)
    ensures
        r@ == path_of(base@, key@),
{
    match key.year {
        Some(y) => {
            let dir = join(base, decimal(y).as_str());
            join(dir.as_str(), key.filename.as_str())
        },
        None => join(base, key.filename.as_str()),
    }
}

/// The directories of the cache, outermost first: the user's cache home, the
/// cache's own directory in it, and the directory of one year where a year is
/// asked for.
#[derive(Clone, Debug, PartialEq, Eq)]
pub struct CacheLayout {
    pub home: String,
    pub root: String,
    pub year_dir: Option<String>,
}

pub struct CacheLayoutView {
    pub home: Seq<char>,
    pub root: Seq<char>,
    pub year_dir: Option<Seq<char>>,
}

impl View for CacheLayout {
    type V = CacheLayoutView;

    open spec fn view(&self) -> CacheLayoutView {
        CacheLayoutView {
            home: self.home@,
            root: self.root@,
            year_dir: match self.year_dir {
                Some(d) => Some(d@),
                None => None,
            },
        }
    }
}

/// The path of `name` in the directory `dir`, as a path is extended by a
/// relative name: a slash goes between the two, unless the directory is the
/// empty path or ends in a slash already.
pub open spec fn child_of(dir: Seq<char>, name: Seq<char>) -> Seq<char> {
    if dir.len() == 0 {
        name
    } else if dir.last() == '/' {
        dir + name
    } else {
        dir + "/"@ + name
    }
}

/// Extends the path of a directory by a relative name.
pub fn child(dir: &str, name: &str) -> (r: String)
    ensures
        r@ == child_of(dir@, name@),
{
    let len = dir.unicode_len();
    let mut path = String::from_str(dir);
    if len > 0 && dir.get_char(len - 1) != '/' {
        path.append("/");
    }
    path.append(name);
    path
}

/// The cache home of a user who has set none: `.cache` in the home directory.
pub open spec fn default_home_of(home_dir: Seq<char>) -> Seq<char> {
    child_of(home_dir, ".cache"@)
}

/// The cache home to use where the user has set none.
pub fn default_cache_home(home_dir: &str) -> (r: String)
    ensures
        r@ == default_home_of(home_dir@),
{
    child(home_dir, ".cache")
}

/// The cache home of a user: the one set, whatever it holds, else the
/// default one in the home directory; none where neither is known.
pub open spec fn cache_home_of(xdg: Option<Seq<char>>, home_dir: Option<Seq<char>>) -> Option<
    Seq<char>,
> {
    match (xdg, home_dir) {
        (Some(set), _) => Some(set),
        (None, Some(home)) => Some(default_home_of(home)),
        (None, None) => None,
    }
}

/// The view of a text that may be missing.
pub open spec fn optional_text(text: Option<String>) -> Option<Seq<char>> {
    match text {
        Some(t) => Some(t@),
        None => None,
    }
}

/// Chooses the cache home from what the environment gives: the value of the
/// cache-home variable, if it is set, and the home directory, if it is known.
pub fn cache_home(xdg: Option<String>, home_dir: Option<String>) -> (r: Option<String>)
    ensures
        optional_text(r) == cache_home_of(optional_text(xdg), optional_text(home_dir)),
{
    match xdg {
        Some(set) => Some(set),
        None => match home_dir {
            Some(home) => Some(default_cache_home(home.as_str())),
            None => None,
        },
    }
}

/// The layout below a cache home: the cache's directory is `f1rs` in it, a
/// year's directory bears the year's number.
pub open spec fn layout_of(cache_home: Seq<char>, year: Option<int>) -> CacheLayoutView {
    CacheLayoutView {
        home: cache_home,
        root: child_of(cache_home, "f1rs"@),
        year_dir: match year {
            Some(y) => Some(child_of(child_of(cache_home, "f1rs"@), decimal_of(y))),
            None => None,
        },
    }
}

/// The directories that have to exist before the cache is used for `year`.
pub fn cache_layout(cache_home: &str, year: Option<i32>) -> (r: CacheLayout)
    ensures
        r@ == layout_of(
            cache_home@,
            match year {
                Some(y) => Some(y as int),
                None => None,
            },
        ),
{
    let root = child(cache_home, "f1rs");
    let year_dir = match year {
        Some(y) => Some(child(root.as_str(), decimal(y).as_str())),
        None => None,
    };
    CacheLayout { home: String::from_str(cache_home), root, year_dir }
}

/// A response to get: where it comes from and what it is cached as.
#[derive(Clone, Debug, PartialEq, Eq)]
pub struct Request {
    pub url: String,
    pub key: CacheKey,
}

pub struct RequestView {
    pub url: Seq<char>,
    pub key: CacheKeyView,
}

impl View for Request {
    type V = RequestView;

    open spec fn view(&self) -> RequestView {
        RequestView { url: self.url@, key: self.key@ }
    }
}

/// The season of a year: `<year>.json` at the service, cached under the same
/// name in the cache's directory.
pub open spec fn season_request_of(year: int) -> RequestView {
    RequestView {
        url: "http://ergast.com/api/f1/"@ + decimal_of(year) + ".json"@,
        key: CacheKeyView { year: None, filename: decimal_of(year) + ".json"@ },
    }
}

/// The request for the season of `year`.
pub fn season_request(year: i32) -> (r: Request)
    ensures
        r@ == season_request_of(year as int),
{
    let number = decimal(year);
    let mut url = String::from_str("http://ergast.com/api/f1/");
    url.append(number.as_str());
    url.append(".json");
    let mut filename = number;
    filename.append(".json");
    Request { url, key: CacheKey { year: None, filename } }
}

/// The circuits: all of them from `circuits.json`, those of one year from
/// `<year>/circuits.json`; cached as `circuits.json`, in the year's
/// directory for a year.
pub open spec fn circuits_request_of(year: Option<int>) -> RequestView {
    RequestView {
        url: match year {
            Some(y) => "http://ergast.com/api/f1/"@ + decimal_of(y) + "/circuits.json"@,
            None => "http://ergast.com/api/f1/circuits.json"@,
        },
        key: CacheKeyView { year, filename: "circuits.json"@ },
    }
}

/// The request for the circuits, of all years or of one.
pub fn circuits_request(year: Option<i32>) -> (r: Request)
    ensures
        r@ == circuits_request_of(
            match year {
                Some(y) => Some(y as int),
                None => None,
            },
        ),
{
    let url = match year {
        Some(y) => {
            let mut url = String::from_str("http://ergast.com/api/f1/");
            url.append(decimal(y).as_str());
            url.append("/circuits.json");
            url
        },
        None => String::from_str("http://ergast.com/api/f1/circuits.json"),
    };
    Request { url, key: CacheKey { year, filename: String::from_str("circuits.json") } }
}

} // verus!
