//! Protocol versions and their negotiation.

use vstd::prelude::*;

verus! {

/// A semantic version, as plain values.
#[derive(Debug, PartialEq, Eq)]
pub struct Version {
    pub major: u64,
    pub minor: u64,
    pub patch: u64,
    /// Pre-release tag, empty for a release.
    pub pre: String,
    /// Build metadata, empty if there is none.
    pub build: String,
}

/// What a [`Version`] holds.
pub struct VersionView {
    pub major: u64,
    pub minor: u64,
    pub patch: u64,
    pub pre: Seq<char>,
    pub build: Seq<char>,
}

impl View for Version {
    type V = VersionView;

    open spec fn view(&self) -> VersionView {
        VersionView {
            major: self.major,
            minor: self.minor,
            patch: self.patch,
            pre: self.pre@,
            build: self.build@,
        }
    }
}

/// How one version stands to another.
#[derive(Debug, Clone, Copy, PartialEq, Eq)]
pub enum Precedence {
    Older,
    Same,
    Newer,
}

/// How two pre-release tags and build metadata compare, for versions with the same
/// three numbers: negative if the first pair comes first, zero if the pairs are the
/// same, positive if the first pair comes last.
pub uninterp spec fn tag_order(
    pre: Seq<char>,
    build: Seq<char>,
    other_pre: Seq<char>,
    other_build: Seq<char>,
) -> int;

/// How two versions compare whose tags compare as `tags` says: by major, minor and
/// patch number, then by their tags.
pub open spec fn order_with_tags(a: VersionView, b: VersionView, tags: int) -> int {
    if a.major != b.major {
        a.major - b.major
    } else if a.minor != b.minor {
        a.minor - b.minor
    } else if a.patch != b.patch {
        a.patch - b.patch
    } else {
        tags
    }
}

/// How two versions compare: negative if `a` is older, positive if it is newer.
pub open spec fn version_order(a: VersionView, b: VersionView) -> int {
    order_with_tags(a, b, tag_order(a.pre, a.build, b.pre, b.build))
}

/// Whether `a` is the same version as `b` or an older one.
pub open spec fn at_most(a: VersionView, b: VersionView) -> bool {
    a == b || version_order(a, b) < 0
}

/// What `semver::Version::parse` reads a text as, if it is the text of a version.
pub uninterp spec fn parsed_version(text: Seq<char>) -> Option<VersionView>;

/// The characters of pre-release tags and build metadata.
pub open spec fn is_tag_char(c: char) -> bool {
    ||| '0' as int <= c as int <= '9' as int
    ||| 'a' as int <= c as int <= 'z' as int
    ||| 'A' as int <= c as int <= 'Z' as int
    ||| c == '-'
}

/// Whether a dot separates identifiers at `i`, the ends of the text included.
pub open spec fn is_tag_boundary(s: Seq<char>, i: int) -> bool {
    i == -1 || i == s.len() || (0 <= i < s.len() && s[i] == '.')
}

/// Whether `s` is a list of dot-separated identifiers: no identifier is empty and all
/// are made of letters, digits and hyphens.
pub open spec fn is_tag(s: Seq<char>) -> bool {
    &&& forall|i: int| 0 <= i < s.len() ==> is_tag_char(#[trigger] s[i]) || s[i] == '.'
    &&& forall|i: int|
        -1 <= i < s.len() && s.len() > 0 && #[trigger] is_tag_boundary(s, i)
            ==> !is_tag_boundary(s, i + 1)
}

/// Whether the identifier of `s` between the boundaries `i` and `j` is a number with a
/// superfluous leading zero.
pub open spec fn has_leading_zero(s: Seq<char>, i: int, j: int) -> bool {
    &&& j - i > 2
    &&& s[i + 1] == '0'
    &&& forall|k: int| i < k < j ==> '0' as int <= #[trigger] s[k] as int <= '9' as int
}

/// Whether `s` can be a pre-release tag: a list of identifiers in which no number has a
/// leading zero.
pub open spec fn is_pre_tag(s: Seq<char>) -> bool {
    &&& is_tag(s)
    &&& forall|i: int, j: int|
        -1 <= i < j <= s.len() && #[trigger] is_tag_boundary(s, i) && #[trigger] is_tag_boundary(
            s,
            j,
        ) ==> !has_leading_zero(s, i, j)
}

impl VersionView {
    /// Whether the tags are well formed.
    pub open spec fn well_formed(self) -> bool {
        is_pre_tag(self.pre) && is_tag(self.build)
    }
}

/// Reads a version with `semver::Version::parse`. What the call accepts and what it
/// reads is left to the name [`parsed_version`]; the tags of an accepted version are
/// well formed.
#[verifier::external_body]
fn read_version(text: &str) -> (r: Option<Version>)
    ensures
        match r {
            Some(v) => parsed_version(text@) == Some(v@) && v@.well_formed(),
            None => parsed_version(text@) is None,
        },
{
    let v = semver::Version::parse(text).ok()?;
    Some(
        Version {
            major: v.major,
            minor: v.minor,
            patch: v.patch,
            pre: v.pre.as_str().to_owned(),
            build: v.build.as_str().to_owned(),
        },
    )
}

/// Compares two versions with the `Ord` of `semver::Version`, which goes by major,
/// minor and patch number, then by pre-release tag and build metadata. How the latter
/// two compare is left to the name [`tag_order`]; they compare as the same exactly when
/// they are the same text, and swapping the two versions swaps the outcome.
#[verifier::external_body]
fn compare_versions(a: &Version, b: &Version) -> (r: Precedence)
    requires
        a@.well_formed(),
        b@.well_formed(),
    ensures
        r is Older <==> order_with_tags(
            a@,
            b@,
            tag_order(a.pre@, a.build@, b.pre@, b.build@),
        ) < 0,
        r is Newer <==> order_with_tags(
            a@,
            b@,
            tag_order(a.pre@, a.build@, b.pre@, b.build@),
        ) > 0,
        r is Older <==> version_order(b@, a@) > 0,
        r is Newer <==> version_order(b@, a@) < 0,
        r is Same <==> a@ == b@,
{
    let of = |v: &Version| {
        let pre = semver::Prerelease::new(&v.pre).expect("well-formed tag");
        let build = semver::BuildMetadata::new(&v.build).expect("well-formed metadata");
        semver::Version { major: v.major, minor: v.minor, patch: v.patch, pre, build }
    };
    match of(a).cmp(&of(b)) {
        std::cmp::Ordering::Less => Precedence::Older,
        std::cmp::Ordering::Equal => Precedence::Same,
        std::cmp::Ordering::Greater => Precedence::Newer,
    }
}

impl Version {
    /// Reads the text of a version.
    pub fn parse(text: &str) -> (r: Option<Version>)
        ensures
            match r {
                Some(v) => parsed_version(text@) == Some(v@) && v@.well_formed(),
                None => parsed_version(text@) is None,
            },
    {
        read_version(text)
    }

    /// The version that both sides of a connection settle on: the older one.
    pub fn settle(&self, client: &Version) -> (r: Version)
        requires
            self@.well_formed(),
            client@.well_formed(),
        ensures
            r@ == settled(self@, client@),
            at_most(r@, self@),
            at_most(r@, client@),
    {
        self.settle_by(client, compare_versions(self, client))
    }

    /// The version that both sides of a connection settle on, given how this side's version
    /// stands to the client's.
    pub fn settle_by(&self, client: &Version, precedence: Precedence) -> (r: Version)
        ensures
            r@ == if precedence is Newer {
                client@
            } else {
                self@
            },
    {
        match precedence {
            Precedence::Newer => client.copy(),
            _ => self.copy(),
        }
    }

    pub(crate) fn copy(&self) -> (r: Version)
        ensures
            r@ == self@,
    {
        Version {
            major: self.major,
            minor: self.minor,
            patch: self.patch,
            pre: self.pre.clone(),
            build: self.build.clone(),
        }
    }
}

/// The older of two versions.
pub open spec fn settled(own: VersionView, client: VersionView) -> VersionView {
    if version_order(own, client) > 0 {
        client
    } else {
        own
    }
}

/// The version that is settled on is one of the two, and it is the older one: the one with
/// the smaller major number, or of two with the same major number the one with the smaller
/// minor number, or of two with the same of both the one with the smaller patch number. The
/// tags count only where all three are the same.
pub proof fn law_the_older_version_is_settled_on(own: VersionView, client: VersionView)
    ensures
        settled(own, client) == own || settled(own, client) == client,
        own.major < client.major ==> settled(own, client) == own,
        own.major > client.major ==> settled(own, client) == client,
        own.major == client.major && own.minor < client.minor ==> settled(own, client) == own,
        own.major == client.major && own.minor > client.minor ==> settled(own, client) == client,
        own.major == client.major && own.minor == client.minor && own.patch < client.patch
            ==> settled(own, client) == own,
        own.major == client.major && own.minor == client.minor && own.patch > client.patch
            ==> settled(own, client) == client,
        own.major == client.major && own.minor == client.minor && own.patch == client.patch ==> (
        settled(own, client) == client <==> own == client || tag_order(
            own.pre,
            own.build,
            client.pre,
            client.build,
        ) > 0),
{
}

/// One version is at most another exactly if it is the same or an older one, which the numbers
/// decide where they differ.
pub proof fn law_older_versions_are_at_most_newer_ones(a: VersionView, b: VersionView)
    ensures
        at_most(a, a),
        a.major < b.major ==> at_most(a, b) && !at_most(b, a),
        a.major == b.major && a.minor < b.minor ==> at_most(a, b) && !at_most(b, a),
        a.major == b.major && a.minor == b.minor && a.patch < b.patch ==> at_most(a, b)
            && !at_most(b, a),
{
}

/// What is settled on by a comparison is the client's version exactly if this side's is newer,
/// and this side's if it is not.
pub proof fn law_the_newer_side_gives_way(
    own: Version,
    client: Version,
    precedence: Precedence,
    r: Version,
)
    requires
        call_ensures(Version::settle_by, (&own, &client, precedence), r),
    ensures
        precedence is Newer ==> r@ == client@,
        precedence is Older || precedence is Same ==> r@ == own@,
{
}

} // verus!
