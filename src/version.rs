//! Semantic versions: parsing, printing, precedence and the latest of a
//! release listing.
use vstd::prelude::*;
use crate::error::Error;
use crate::text::push_char;

verus! {

/// The parts of a version: major, minor, patch, pre-release and build metadata.
pub type VersionParts = (u64, u64, u64, Seq<char>, Seq<char>);

/// What `semver::Version::parse` makes of a text: its parts, or nothing where it refuses it.
pub uninterp spec fn semver_parse(s: Seq<char>) -> Option<VersionParts>;

/// Whether `semver` orders the first pre-release before the second.
pub uninterp spec fn prerelease_lt(a: Seq<char>, b: Seq<char>) -> bool;

/// Relies on `semver::Version::parse`; the parts are copied out of the parsed value.
#[verifier::external_body]
fn semver_parts(s: &str) -> (r: Option<(u64, u64, u64, String, String)>)
    ensures
        match r {
            Some(p) => semver_parse(s@) == Some((p.0, p.1, p.2, p.3@, p.4@)),
            None => semver_parse(s@) is None,
        },
{
    match semver::Version::parse(s) {
        Ok(v) => Some((v.major, v.minor, v.patch, v.pre.as_str().to_owned(), v.build.as_str().to_owned())),
        Err(_) => None,
    }
}

/// Relies on `semver::Prerelease::new` and the order of `semver::Prerelease`;
/// a text that is no pre-release is not ordered before anything.
#[verifier::external_body]
fn prerelease_less(a: &str, b: &str) -> (r: bool)
    ensures
        r == prerelease_lt(a@, b@),
{
    match (semver::Prerelease::new(a), semver::Prerelease::new(b)) {
        (Ok(x), Ok(y)) => x < y,
        _ => false,
    }
}

/// A resolved semantic version.
#[derive(Debug)]
pub struct Version {
    pub major: u64,
    pub minor: u64,
    pub patch: u64,
    pub pre: String,
    pub build: String,
}

impl Version {
    pub open spec fn parts(&self) -> VersionParts {
        (self.major, self.minor, self.patch, self.pre@, self.build@)
    }
}

/// Precedence: major, minor and patch in turn, then the pre-release; build
/// metadata does not count.
pub open spec fn version_lt(a: VersionParts, b: VersionParts) -> bool {
    if a.0 != b.0 {
        a.0 < b.0
    } else if a.1 != b.1 {
        a.1 < b.1
    } else if a.2 != b.2 {
        a.2 < b.2
    } else {
        prerelease_lt(a.3, b.3)
    }
}

pub open spec fn digit_char(d: nat) -> char {
    ((d + 48) as u8) as char
}

/// The decimal digits of `n`, without leading zeros.
pub open spec fn decimal(n: nat) -> Seq<char>
    decreases n,
{
    if n < 10 {
        seq![digit_char(n)]
    } else {
        decimal(n / 10).push(digit_char(n % 10))
    }
}

/// The usual text of a version: `major.minor.patch`, then `-pre` and `+build` where present.
pub open spec fn version_text(p: VersionParts) -> Seq<char> {
    let core = decimal(p.0 as nat).push('.') + decimal(p.1 as nat).push('.') + decimal(p.2 as nat);
    let with_pre = if p.3.len() > 0 { core.push('-') + p.3 } else { core };
    if p.4.len() > 0 { with_pre.push('+') + p.4 } else { with_pre }
}

fn push_decimal(s: &mut String, n: u64)
    ensures
        final(s)@ == old(s)@ + decimal(n as nat),
    decreases n,
{
    if n >= 10 {
        push_decimal(s, n / 10);
    }
    let d: u8 = (n % 10) as u8;
    push_char(s, (d + 48) as char);
    if n < 10 {
        assert(final(s)@ =~= old(s)@ + decimal(n as nat));
    } else {
        assert(final(s)@ =~= old(s)@ + decimal(n as nat));
    }
}

impl Version {
    /// The usual text of the version.
    pub fn to_string(&self) -> (r: String)
        ensures
            r@ == version_text(self.parts()),
    {
        let mut r = String::new();
        push_decimal(&mut r, self.major);
        push_char(&mut r, '.');
        push_decimal(&mut r, self.minor);
        push_char(&mut r, '.');
        push_decimal(&mut r, self.patch);
        if self.pre.unicode_len() > 0 {
            push_char(&mut r, '-');
            r.append(self.pre.as_str());
        }
        if self.build.unicode_len() > 0 {
            push_char(&mut r, '+');
            r.append(self.build.as_str());
        }
        assert(r@ =~= version_text(self.parts()));
        r
    }
}

/// Parses a semantic version.
pub fn parse_version(s: &str) -> (r: Result<Version, Error>)
    ensures
        match r {
            Ok(v) => semver_parse(s@) == Some(v.parts()),
            Err(e) => semver_parse(s@) is None && (e matches Error::SemVer { input } && input@ == s@),
        },
{
    match semver_parts(s) {
        Some((major, minor, patch, pre, build)) => Ok(Version { major, minor, patch, pre, build }),
        None => Err(Error::SemVer { input: s.to_owned() }),
    }
}

/// Whether `a` precedes `b`.
pub fn version_less(a: &Version, b: &Version) -> (r: bool)
    ensures
        r == version_lt(a.parts(), b.parts()),
{
    if a.major != b.major {
        a.major < b.major
    } else if a.minor != b.minor {
        a.minor < b.minor
    } else if a.patch != b.patch {
        a.patch < b.patch
    } else {
        prerelease_less(a.pre.as_str(), b.pre.as_str())
    }
}

/// A tag of the listing names a version that no tag of it follows.
pub open spec fn is_latest_tag(tags: Seq<Seq<char>>, i: int) -> bool {
    &&& 0 <= i < tags.len()
    &&& semver_parse(tags[i]) is Some
    &&& forall|j: int|
        0 <= j < tags.len() && #[trigger] semver_parse(tags[j]) is Some ==> !version_lt(
            semver_parse(tags[i])->0,
            semver_parse(tags[j])->0,
        )
}

/// The texts of the tags.
pub open spec fn tag_texts(tags: Seq<String>) -> Seq<Seq<char>> {
    tags.map_values(|t: String| t@)
}

/// The latest version of a release listing: the first tag that parses and
/// that no other parsed tag follows. Tags that do not parse are passed over.
pub fn latest_of(tags: &Vec<String>) -> (r: Result<Version, Error>)
    ensures
        match r {
            Ok(v) => exists|i: int|
                is_latest_tag(tag_texts(tags@), i)
                    && semver_parse(#[trigger] tags@[i]@) == Some(v.parts()),
            Err(e) => (e matches Error::NoRelease) && forall|i: int|
                !#[trigger] is_latest_tag(tag_texts(tags@), i),
        },
{
    let ghost ts = tag_texts(tags@);
    let mut i: usize = 0;
    while i < tags.len()
        invariant
            i <= tags@.len(),
            ts == tag_texts(tags@),
            forall|k: int| 0 <= k < i ==> !#[trigger] is_latest_tag(ts, k),
        decreases tags@.len() - i,
    {
        if let Ok(v) = parse_version(tags[i].as_str()) {
            let mut j: usize = 0;
            let mut followed = false;
            while j < tags.len()
                invariant
                    i < tags@.len(),
                    j <= tags@.len(),
                    ts == tag_texts(tags@),
                    semver_parse(ts[i as int]) == Some(v.parts()),
                    !followed ==> forall|k: int|
                        0 <= k < j && #[trigger] semver_parse(ts[k]) is Some ==> !version_lt(
                            v.parts(),
                            semver_parse(ts[k])->0,
                        ),
                    followed ==> !is_latest_tag(ts, i as int),
                decreases tags@.len() - j,
            {
                if !followed {
                    if let Ok(w) = parse_version(tags[j].as_str()) {
                        if version_less(&v, &w) {
                            followed = true;
                            assert(semver_parse(ts[j as int]) is Some);
                        }
                    }
                }
                j = j + 1;
            }
            if !followed {
                assert(is_latest_tag(ts, i as int));
                return Ok(v);
            }
        }
        i = i + 1;
    }
    Err(Error::NoRelease)
}

} // verus!
