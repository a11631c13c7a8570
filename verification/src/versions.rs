//! Semantic versions: strict parsing, the legacy shorthand, precedence, and
//! the rule that decides whether a release is installed.

use crate::text::{
    decimal,
    decimal_string,
    drop_last,
    ends_with,
    has_suffix,
    is_digit,
    lemma_decimal_is_digits,
    lemma_decimal_is_injective,
    lemma_digit_run_is_unique,
    without_last,
};
use vstd::prelude::*;

verus! {

/// Three numbers in decimal, joined by dots, and what follows them.
pub open spec fn numbered(major: nat, minor: nat, patch: nat, rest: Seq<char>) -> Seq<char> {
    decimal(major) + (seq!['.'] + (decimal(minor) + (seq!['.'] + (decimal(patch) + rest))))
}

/// A semantic version as plain values.
pub struct VersionModel {
    pub major: u64,
    pub minor: u64,
    pub patch: u64,
    pub pre: Seq<char>,
    pub build: Seq<char>,
}

impl VersionModel {
    /// What stands behind the three numbers in the canonical text: `-` and
    /// the pre-release tag if there is one, then `+` and the build metadata if
    /// there is any.
    pub open spec fn suffix(self) -> Seq<char> {
        (if self.pre.len() == 0 {
            Seq::<char>::empty()
        } else {
            seq!['-'] + self.pre
        }) + (if self.build.len() == 0 {
            Seq::<char>::empty()
        } else {
            seq!['+'] + self.build
        })
    }

    /// The canonical text of a version: the three numbers joined by dots, then
    /// the suffix.
    pub open spec fn render(self) -> Seq<char> {
        numbered(self.major as nat, self.minor as nat, self.patch as nat, self.suffix())
    }

    /// The version is a release: it has no pre-release tag and no build
    /// metadata.
    pub open spec fn is_release(self) -> bool {
        self.pre.len() == 0 && self.build.len() == 0
    }
}

/// A semantic version. Its pre-release tag is empty or one that the `semver`
/// crate accepts, so two versions can always be compared.
#[derive(Debug)]
pub struct Version {
    major: u64,
    minor: u64,
    patch: u64,
    pre: String,
    build: String,
}

/// Why a text is no version.
#[derive(Clone, Debug, PartialEq, Eq)]
pub struct VersionError {
    /// The text that was refused, after the shorthand was written out.
    pub input: String,
    /// What the parser said of it.
    pub reason: String,
}

impl VersionError {
    /// The error in words: that the version string is invalid, and what the
    /// parser said of it.
    pub open spec fn text(&self) -> Seq<char> {
        "Invalid new version string: "@ + self.reason@
    }

    /// Says the error in words.
    pub fn message(&self) -> (r: String)
        ensures
            r@ == self.text(),
    {
        let mut r = String::from_str("Invalid new version string: ");
        r.append(self.reason.as_str());
        r
    }
}

/// How one version stands to another.
#[derive(Clone, Copy, Debug, PartialEq, Eq, Structural)]
pub enum Precedence {
    Lower,
    Same,
    Higher,
}

impl Precedence {
    /// The same relation seen from the other side.
    pub open spec fn reverse(self) -> Precedence {
        match self {
            Precedence::Lower => Precedence::Higher,
            Precedence::Same => Precedence::Same,
            Precedence::Higher => Precedence::Lower,
        }
    }
}

/// The parse error of the `semver` crate. It is carried from the parser to
/// the call that turns it into words; nothing is claimed of what it holds.
#[verifier::external_type_specification]
#[verifier::external_body]
pub struct ExSemverError(semver::Error);

/// What `semver::Version::parse` makes of a text: the version, or nothing
/// where it refuses the text.
pub uninterp spec fn strict_version(text: Seq<char>) -> Option<VersionModel>;

/// Whether `semver::Prerelease::new` accepts a text.
pub uninterp spec fn prerelease_ok(text: Seq<char>) -> bool;

/// How `semver::Prerelease` orders two tags that it accepts.
pub uninterp spec fn prerelease_order(a: Seq<char>, b: Seq<char>) -> Precedence;

impl View for Version {
    type V = VersionModel;

    closed spec fn view(&self) -> VersionModel {
        VersionModel {
            major: self.major,
            minor: self.minor,
            patch: self.patch,
            pre: self.pre@,
            build: self.build@,
        }
    }
}

impl Version {
    #[verifier::type_invariant]
    spec fn well_formed(self) -> bool {
        self.pre@.len() == 0 || prerelease_ok(self.pre@)
    }
}

/// Calls `semver::Version::parse`. The result is a function of the text:
/// the version that the name `strict_version` stands for, or the crate's error
/// where there is none. A version that comes back has a pre-release tag that
/// `semver::Prerelease::new` accepts too (both go through one identifier
/// parser), and printing it gives the text back: the parser takes numbers
/// without leading zeros only, and nothing before or after the version.
#[verifier::external_body]
fn parse_strict(text: &str) -> (r: Result<Version, semver::Error>)
    ensures
        r is Ok <==> strict_version(text@) is Some,
        r matches Ok(v) ==> strict_version(text@) == Some(v@),
        r matches Ok(v) ==> prerelease_ok(v@.pre),
        r matches Ok(v) ==> v@.render() == text@,
{
    match semver::Version::parse(text) {
        Ok(v) => Ok(
            Version {
                major: v.major,
                minor: v.minor,
                patch: v.patch,
                pre: v.pre.as_str().to_string(),
                build: v.build.as_str().to_string(),
            },
        ),
        Err(e) => Err(e),
    }
}

/// Calls the `Display` impl of `semver::Error`. Nothing is claimed of the
/// message.
#[verifier::external_body]
fn error_text(e: &semver::Error) -> (r: String) {
    e.to_string()
}

/// Calls `Ord::cmp` of `semver::Prerelease` on two tags that the crate
/// accepts. The result is a function of the two texts, and the order is the
/// same from both sides: swapping the tags reverses it.
#[verifier::external_body]
fn prerelease_precedence(a: &str, b: &str) -> (r: Precedence)
    requires
        prerelease_ok(a@),
        prerelease_ok(b@),
    ensures
        r == prerelease_order(a@, b@),
        prerelease_order(b@, a@) == r.reverse(),
{
    let left = semver::Prerelease::new(a).unwrap();
    let right = semver::Prerelease::new(b).unwrap();
    match left.cmp(&right) {
        std::cmp::Ordering::Less => Precedence::Lower,
        std::cmp::Ordering::Equal => Precedence::Same,
        std::cmp::Ordering::Greater => Precedence::Higher,
    }
}

/// The text in which a trailing shorthand marker is written out: `rc`
/// becomes `-rc`, `a` becomes `-alpha`, `b` becomes `-beta`. A text without
/// such a marker stays as it is.
pub open spec fn expand_shorthand(text: Seq<char>) -> Seq<char> {
    if ends_with(text, "rc"@) {
        drop_last(text, 2) + "-rc"@
    } else if ends_with(text, "a"@) {
        drop_last(text, 1) + "-alpha"@
    } else if ends_with(text, "b"@) {
        drop_last(text, 1) + "-beta"@
    } else {
        text
    }
}

/// What a text parses to: the strict reading first; where there is none, the
/// strict reading of the text with its shorthand written out.
pub open spec fn parsed(text: Seq<char>) -> Option<VersionModel> {
    match strict_version(text) {
        Some(v) => Some(v),
        None => strict_version(expand_shorthand(text)),
    }
}

/// Writes out a trailing shorthand marker.
pub fn normalize_shorthand(text: &str) -> (r: String)
    ensures
        r@ == expand_shorthand(text@),
{
    proof {
        reveal_strlit("rc");
        reveal_strlit("a");
        reveal_strlit("b");
    }
    if has_suffix(text, "rc") {
        let mut r = without_last(text, 2);
        r.append("-rc");
        r
    } else if has_suffix(text, "a") {
        let mut r = without_last(text, 1);
        r.append("-alpha");
        r
    } else if has_suffix(text, "b") {
        let mut r = without_last(text, 1);
        r.append("-beta");
        r
    } else {
        String::from_str(text)
    }
}

/// Parses a text that must be a semantic version as it stands.
pub fn parse_exact(text: &str) -> (r: Result<Version, VersionError>)
    ensures
        match r {
            Ok(v) => strict_version(text@) == Some(v@) && v@.render() == text@,
            Err(e) => strict_version(text@) is None && e.input@ == text@,
        },
{
    match parse_strict(text) {
        Ok(v) => Ok(v),
        Err(e) => Err(VersionError { input: String::from_str(text), reason: error_text(&e) }),
    }
}

/// Parses a version. A text that is a semantic version is read as it stands.
/// Any other text is read once more with its trailing shorthand written out.
pub fn parse_version(version_str: &str) -> (r: Result<Version, VersionError>)
    ensures
        match r {
            Ok(v) => parsed(version_str@) == Some(v@) && v@.render() == (if strict_version(
                version_str@,
            ) is Some {
                version_str@
            } else {
                expand_shorthand(version_str@)
            }),
            Err(e) => parsed(version_str@) is None && e.input@ == expand_shorthand(version_str@),
        },
{
    match parse_strict(version_str) {
        Ok(v) => Ok(v),
        Err(_) => {
            let expanded = normalize_shorthand(version_str);
            match parse_strict(expanded.as_str()) {
                Ok(v) => Ok(v),
                Err(e) => Err(VersionError { input: expanded, reason: error_text(&e) }),
            }
        },
    }
}

/// How `a` stands to `b`: by major, minor and patch number in turn; where
/// these agree, a version without a pre-release tag stands above one that has
/// a tag, and two tags are ordered as the `semver` crate orders them. Build
/// metadata does not count.
pub open spec fn precedence(a: VersionModel, b: VersionModel) -> Precedence {
    if a.major != b.major {
        if a.major < b.major {
            Precedence::Lower
        } else {
            Precedence::Higher
        }
    } else if a.minor != b.minor {
        if a.minor < b.minor {
            Precedence::Lower
        } else {
            Precedence::Higher
        }
    } else if a.patch != b.patch {
        if a.patch < b.patch {
            Precedence::Lower
        } else {
            Precedence::Higher
        }
    } else if a.pre.len() == 0 && b.pre.len() == 0 {
        Precedence::Same
    } else if a.pre.len() == 0 {
        Precedence::Higher
    } else if b.pre.len() == 0 {
        Precedence::Lower
    } else {
        prerelease_order(a.pre, b.pre)
    }
}

/// `a` is newer than `b`: it stands above `b`, and `b` below it.
pub open spec fn newer(a: VersionModel, b: VersionModel) -> bool {
    precedence(a, b) == Precedence::Higher && precedence(b, a) == Precedence::Lower
}

/// Whether `candidate` is to be installed on a host that records `current`:
/// always where nothing is recorded, else only where it is strictly newer.
pub open spec fn install_due(candidate: VersionModel, current: Option<VersionModel>) -> bool {
    match current {
        None => true,
        Some(c) => newer(candidate, c),
    }
}

impl Version {
    /// The release `major.minor.patch`, without pre-release tag or build
    /// metadata.
    pub fn new(major: u64, minor: u64, patch: u64) -> (v: Version)
        ensures
            v@ == (VersionModel {
                major,
                minor,
                patch,
                pre: Seq::<char>::empty(),
                build: Seq::<char>::empty(),
            }),
    {
        Version { major, minor, patch, pre: String::new(), build: String::new() }
    }

    pub fn major(&self) -> (r: u64)
        ensures
            r == self@.major,
    {
        self.major
    }

    pub fn minor(&self) -> (r: u64)
        ensures
            r == self@.minor,
    {
        self.minor
    }

    pub fn patch(&self) -> (r: u64)
        ensures
            r == self@.patch,
    {
        self.patch
    }

    /// The pre-release tag; empty for a release.
    pub fn pre(&self) -> (r: &str)
        ensures
            r@ == self@.pre,
    {
        self.pre.as_str()
    }

    /// The build metadata; empty where there is none.
    pub fn build(&self) -> (r: &str)
        ensures
            r@ == self@.build,
    {
        self.build.as_str()
    }

    /// The canonical text of the version.
    pub fn to_string(&self) -> (r: String)
        ensures
            r@ == self@.render(),
    {
        proof {
            reveal_strlit(".");
            reveal_strlit("-");
            reveal_strlit("+");
            assert("."@ =~= seq!['.']);
            assert("-"@ =~= seq!['-']);
            assert("+"@ =~= seq!['+']);
        }
        let mut tag = String::new();
        if self.pre.as_str().unicode_len() != 0 {
            tag.append("-");
            tag.append(self.pre.as_str());
        }
        let mut metadata = String::new();
        if self.build.as_str().unicode_len() != 0 {
            metadata.append("+");
            metadata.append(self.build.as_str());
        }
        assert(tag@ + metadata@ =~= self@.suffix());
        tag.append(metadata.as_str());
        let mut patch = decimal_string(self.patch);
        patch.append(tag.as_str());
        let mut minor = decimal_string(self.minor);
        minor.append(".");
        minor.append(patch.as_str());
        assert(minor@ =~= decimal(self.minor as nat) + (seq!['.'] + patch@));
        let mut r = decimal_string(self.major);
        r.append(".");
        r.append(minor.as_str());
        assert(r@ =~= decimal(self.major as nat) + (seq!['.'] + minor@));
        r
    }

    /// Compares two versions by precedence.
    pub fn precedence(&self, other: &Version) -> (r: Precedence)
        ensures
            r == precedence(self@, other@),
            precedence(other@, self@) == r.reverse(),
    {
        proof {
            use_type_invariant(self);
            use_type_invariant(other);
        }
        if self.major != other.major {
            if self.major < other.major {
                Precedence::Lower
            } else {
                Precedence::Higher
            }
        } else if self.minor != other.minor {
            if self.minor < other.minor {
                Precedence::Lower
            } else {
                Precedence::Higher
            }
        } else if self.patch != other.patch {
            if self.patch < other.patch {
                Precedence::Lower
            } else {
                Precedence::Higher
            }
        } else {
            let mine: bool = self.pre.as_str().unicode_len() == 0;
            let theirs: bool = other.pre.as_str().unicode_len() == 0;
            if mine && theirs {
                Precedence::Same
            } else if mine {
                Precedence::Higher
            } else if theirs {
                Precedence::Lower
            } else {
                prerelease_precedence(self.pre.as_str(), other.pre.as_str())
            }
        }
    }

    /// Tells whether this version is strictly newer than `other`.
    pub fn is_newer_than(&self, other: &Version) -> (r: bool)
        ensures
            r == newer(self@, other@),
    {
        match self.precedence(other) {
            Precedence::Higher => true,
            _ => false,
        }
    }
}

/// Decides whether the release `new_version_str` is to be installed on a host
/// whose ledger records `current`. The text is parsed first; a text that is no
/// version is an error. With nothing recorded, every version is installed;
/// else only one that is strictly newer than the recorded one.
pub fn should_install(new_version_str: &str, current: Option<&Version>) -> (r: Result<
    bool,
    VersionError,
>)
    ensures
        match r {
            Ok(go) => parsed(new_version_str@) matches Some(v) && go == install_due(
                v,
                match current {
                    Some(c) => Some(c@),
                    None => None,
                },
            ),
            Err(e) => parsed(new_version_str@) is None && e.input@ == expand_shorthand(
                new_version_str@,
            ),
        },
{
    match parse_version(new_version_str) {
        Ok(candidate) => match current {
            Some(c) => Ok(candidate.is_newer_than(c)),
            None => Ok(true),
        },
        Err(e) => Err(e),
    }
}

/// Of two versions of which one is newer than the other, the newer one is
/// installed over the older, the older one is not installed over the newer,
/// and neither is installed over itself.
pub proof fn law_install_is_strict(a: VersionModel, b: VersionModel)
    requires
        newer(a, b),
    ensures
        install_due(a, Some(b)),
        !install_due(b, Some(a)),
        !install_due(a, Some(a)),
        !install_due(b, Some(b)),
{
}

/// On a host that records nothing, every version is installed.
pub proof fn law_install_without_record(candidate: VersionModel)
    ensures
        install_due(candidate, None),
{
}

/// A text that is no version as it stands, and whose shorthand written out is
/// one, parses to that version.
pub proof fn law_shorthand_is_written_out(text: Seq<char>, v: VersionModel)
    requires
        strict_version(text) is None,
        strict_version(expand_shorthand(text)) == Some(v),
    ensures
        parsed(text) == Some(v),
{
}


/// The shorthand markers.
pub open spec fn is_marker(marker: Seq<char>) -> bool {
    marker == "a"@ || marker == "b"@ || marker == "rc"@
}

/// The pre-release tag that a shorthand marker stands for.
pub open spec fn tag_of(marker: Seq<char>) -> Seq<char> {
    if marker == "rc"@ {
        "rc"@
    } else if marker == "a"@ {
        "alpha"@
    } else {
        "beta"@
    }
}

/// A text that ends in a marker is written out by putting a hyphen and the
/// marker's tag in the marker's place.
pub proof fn lemma_marker_is_written_out(stem: Seq<char>, marker: Seq<char>)
    requires
        is_marker(marker),
    ensures
        expand_shorthand(stem + marker) == stem + seq!['-'] + tag_of(marker),
{
    reveal_strlit("a");
    reveal_strlit("b");
    reveal_strlit("rc");
    reveal_strlit("-alpha");
    reveal_strlit("-beta");
    reveal_strlit("-rc");
    reveal_strlit("alpha");
    reveal_strlit("beta");
    let text = stem + marker;
    assert(text.subrange(text.len() - marker.len(), text.len() as int) =~= marker);
    assert(drop_last(text, marker.len()) =~= stem);
    if marker == "rc"@ {
        assert("-rc"@ =~= seq!['-'] + "rc"@);
        assert(stem + "-rc"@ =~= stem + seq!['-'] + "rc"@);
    } else {
        assert(text.len() >= 2 ==> text.subrange(text.len() - 2, text.len() as int)[1]
            == text[text.len() - 1]);
        assert(!ends_with(text, "rc"@));
        if marker == "a"@ {
            assert("-alpha"@ =~= seq!['-'] + "alpha"@);
            assert(stem + "-alpha"@ =~= stem + seq!['-'] + "alpha"@);
        } else {
            assert(text.subrange(text.len() - 1, text.len() as int)[0] == 'b');
            assert(!ends_with(text, "a"@));
            assert("-beta"@ =~= seq!['-'] + "beta"@);
            assert(stem + "-beta"@ =~= stem + seq!['-'] + "beta"@);
        }
    }
}

/// Numbered texts are read in one way only: where two of them are the same
/// text, and what follows the numbers begins with no digit in either, the
/// numbers are the same and so is what follows.
proof fn lemma_numbers_are_read_off(
    a: (nat, nat, nat),
    x: Seq<char>,
    b: (nat, nat, nat),
    y: Seq<char>,
)
    requires
        x.len() > 0 ==> !is_digit(x[0]),
        y.len() > 0 ==> !is_digit(y[0]),
        numbered(a.0, a.1, a.2, x) == numbered(b.0, b.1, b.2, y),
    ensures
        a == b,
        x == y,
{
    let dot = seq!['.'];
    lemma_decimal_is_digits(a.0);
    lemma_decimal_is_digits(a.1);
    lemma_decimal_is_digits(a.2);
    lemma_decimal_is_digits(b.0);
    lemma_decimal_is_digits(b.1);
    lemma_decimal_is_digits(b.2);

    let a1 = decimal(a.1) + (dot + (decimal(a.2) + x));
    let b1 = decimal(b.1) + (dot + (decimal(b.2) + y));
    assert((dot + a1)[0] == '.' && (dot + b1)[0] == '.');
    lemma_digit_run_is_unique(decimal(a.0), dot + a1, decimal(b.0), dot + b1);
    lemma_decimal_is_injective(a.0, b.0);
    assert((dot + a1).skip(1) =~= a1);
    assert((dot + b1).skip(1) =~= b1);

    let a2 = decimal(a.2) + x;
    let b2 = decimal(b.2) + y;
    assert((dot + a2)[0] == '.' && (dot + b2)[0] == '.');
    lemma_digit_run_is_unique(decimal(a.1), dot + a2, decimal(b.1), dot + b2);
    lemma_decimal_is_injective(a.1, b.1);
    assert((dot + a2).skip(1) =~= a2);
    assert((dot + b2).skip(1) =~= b2);

    lemma_digit_run_is_unique(decimal(a.2), x, decimal(b.2), y);
    lemma_decimal_is_injective(a.2, b.2);
}

/// What is put behind a numbered text goes behind what follows the numbers.
proof fn lemma_numbered_goes_on(major: nat, minor: nat, patch: nat, x: Seq<char>, y: Seq<char>)
    ensures
        numbered(major, minor, patch, x) + y == numbered(major, minor, patch, x + y),
{
    let dot = seq!['.'];
    let p = decimal(patch) + x;
    assert(p + y =~= decimal(patch) + (x + y));
    let q = dot + p;
    assert(q + y =~= dot + (p + y));
    let r = decimal(minor) + q;
    assert(r + y =~= decimal(minor) + (q + y));
    let t = dot + r;
    assert(t + y =~= dot + (r + y));
    assert((decimal(major) + t) + y =~= decimal(major) + (t + y));
}

/// A release followed by a marker is the canonical text of no version.
proof fn lemma_marked_release_is_not_canonical(
    core: VersionModel,
    marker: Seq<char>,
    v: VersionModel,
)
    requires
        core.is_release(),
        is_marker(marker),
    ensures
        v.render() != core.render() + marker,
{
    reveal_strlit("a");
    reveal_strlit("b");
    reveal_strlit("rc");
    if v.render() == core.render() + marker {
        assert(core.suffix() + marker =~= marker);
        lemma_numbered_goes_on(
            core.major as nat,
            core.minor as nat,
            core.patch as nat,
            core.suffix(),
            marker,
        );
        assert(!is_digit(marker[0]));
        assert(v.suffix().len() > 0 ==> !is_digit(v.suffix()[0]));
        lemma_numbers_are_read_off(
            (v.major as nat, v.minor as nat, v.patch as nat),
            v.suffix(),
            (core.major as nat, core.minor as nat, core.patch as nat),
            marker,
        );
        assert(v.suffix().len() > 0 ==> v.suffix()[0] == '-' || v.suffix()[0] == '+');
        assert(false);
    }
}

/// The shorthand yields the tag. Take a release followed by a marker, and a
/// version whose canonical text is that text, as it stands or with the marker
/// written out: which is what parsing the text gives wherever it gives a
/// version. The version is that release with the marker's tag for its
/// pre-release tag, and without build metadata.
pub proof fn law_shorthand_yields_tag(core: VersionModel, marker: Seq<char>, v: VersionModel)
    requires
        core.is_release(),
        is_marker(marker),
        v.render() == core.render() + marker || v.render() == expand_shorthand(
            core.render() + marker,
        ),
    ensures
        v.major == core.major,
        v.minor == core.minor,
        v.patch == core.patch,
        v.pre == tag_of(marker),
        v.build.len() == 0,
{
    lemma_marked_release_is_not_canonical(core, marker, v);
    reveal_strlit("a");
    reveal_strlit("b");
    reveal_strlit("rc");
    reveal_strlit("alpha");
    reveal_strlit("beta");
    let tag = tag_of(marker);
    let rest = seq!['-'] + tag;
    lemma_marker_is_written_out(core.render(), marker);
    assert(core.render() + seq!['-'] + tag =~= core.render() + rest);
    assert(core.suffix() + rest =~= rest);
    lemma_numbered_goes_on(
        core.major as nat,
        core.minor as nat,
        core.patch as nat,
        core.suffix(),
        rest,
    );
    assert(v.suffix().len() > 0 ==> !is_digit(v.suffix()[0]));
    lemma_numbers_are_read_off(
        (v.major as nat, v.minor as nat, v.patch as nat),
        v.suffix(),
        (core.major as nat, core.minor as nat, core.patch as nat),
        rest,
    );
    assert(forall|i: int| 0 <= i < tag.len() ==> tag[i] != '+');
    if v.pre.len() == 0 {
        assert(v.suffix()[0] == '+' || v.suffix().len() == 0);
        assert(false);
    }
    if v.build.len() > 0 {
        let at = 1 + v.pre.len();
        assert(v.suffix()[at as int] == '+');
        assert(rest[at as int] == tag[at - 1]);
        assert(false);
    }
    assert(v.suffix() =~= seq!['-'] + v.pre);
    assert(v.pre =~= v.suffix().skip(1));
    assert(tag =~= rest.skip(1));
}

} // verus!
