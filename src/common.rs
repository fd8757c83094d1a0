//! API types common to many endpoints.
//!
//! Usually these are enumerations or other simple wrappers around structures
//! present in GitLab's REST API.

use vstd::prelude::*;
use vstd::string::*;
use vstd::utf8::encode_utf8;

use crate::text::{decimal, to_decimal};

verus! {

/// Access levels for groups and projects.
#[derive(Debug, Clone, Copy, PartialEq, Eq, PartialOrd, Ord, Structural)]
pub enum AccessLevel {
    /// Anonymous access.
    Anonymous,
    /// Minimal access.
    Minimal,
    /// Guest access (can see the project).
    Guest,
    /// Reporter access (can open issues).
    Reporter,
    /// Developer access (can push branches, handle issues and merge requests).
    Developer,
    /// Maintainer access (can push to protected branches).
    Maintainer,
    /// Owner access (full rights).
    Owner,
    /// Admin access (full rights).
    Admin,
}

impl AccessLevel {
    /// The name of the access level.
    pub open spec fn spec_str(self) -> Seq<char> {
        match self {
            AccessLevel::Admin => "admin"@,
            AccessLevel::Owner => "owner"@,
            AccessLevel::Maintainer => "maintainer"@,
            AccessLevel::Developer => "developer"@,
            AccessLevel::Reporter => "reporter"@,
            AccessLevel::Guest => "guest"@,
            AccessLevel::Minimal => "minimal"@,
            AccessLevel::Anonymous => "anonymous"@,
        }
    }

    /// The number of the access level.
    pub open spec fn spec_u64(self) -> u64 {
        match self {
            AccessLevel::Admin => 60,
            AccessLevel::Owner => 50,
            AccessLevel::Maintainer => 40,
            AccessLevel::Developer => 30,
            AccessLevel::Reporter => 20,
            AccessLevel::Guest => 10,
            AccessLevel::Minimal => 5,
            AccessLevel::Anonymous => 0,
        }
    }

    /// The string representation of the access level.
    pub fn as_str(self) -> (r: &'static str)
        ensures
            r@ == self.spec_str(),
    {
        match self {
            AccessLevel::Admin => "admin",
            AccessLevel::Owner => "owner",
            AccessLevel::Maintainer => "maintainer",
            AccessLevel::Developer => "developer",
            AccessLevel::Reporter => "reporter",
            AccessLevel::Guest => "guest",
            AccessLevel::Minimal => "minimal",
            AccessLevel::Anonymous => "anonymous",
        }
    }

    /// The integer representation of the access level.
    pub fn as_u64(self) -> (r: u64)
        ensures
            r == self.spec_u64(),
    {
        match self {
            AccessLevel::Admin => 60,
            AccessLevel::Owner => 50,
            AccessLevel::Maintainer => 40,
            AccessLevel::Developer => 30,
            AccessLevel::Reporter => 20,
            AccessLevel::Guest => 10,
            AccessLevel::Minimal => 5,
            AccessLevel::Anonymous => 0,
        }
    }
}

/// Orderings for sorted results.
#[derive(Debug, Clone, Copy, PartialEq, Eq, Structural)]
pub enum SortOrder {
    /// Values should be sorted with "higher" values after "lower" values.
    Ascending,
    /// Values should be sorted with "lower" values after "higher" values.
    Descending,
}

impl Default for SortOrder {
    fn default() -> (r: Self)
        ensures
            r == SortOrder::Descending,
    {
        SortOrder::Descending
    }
}

impl SortOrder {
    /// The parameter value of the sort order.
    pub open spec fn spec_str(self) -> Seq<char> {
        match self {
            SortOrder::Ascending => "asc"@,
            SortOrder::Descending => "desc"@,
        }
    }

    /// The string representation of the sort order.
    pub fn as_str(self) -> (r: &'static str)
        ensures
            r@ == self.spec_str(),
    {
        match self {
            SortOrder::Ascending => "asc",
            SortOrder::Descending => "desc",
        }
    }
}

/// States for features or flags.
#[derive(Debug, Clone, Copy, PartialEq, Eq, Structural)]
pub enum EnableState {
    /// The feature or flag is enabled.
    Enabled,
    /// The feature or flag is disabled.
    Disabled,
}

impl EnableState {
    /// The parameter value of the state.
    pub open spec fn spec_str(self) -> Seq<char> {
        match self {
            EnableState::Enabled => "enabled"@,
            EnableState::Disabled => "disabled"@,
        }
    }

    /// The string representation of the enabled state.
    pub fn as_str(self) -> (r: &'static str)
        ensures
            r@ == self.spec_str(),
    {
        match self {
            EnableState::Enabled => "enabled",
            EnableState::Disabled => "disabled",
        }
    }
}

impl From<bool> for EnableState {
    fn from(b: bool) -> (r: Self) {
        if b {
            EnableState::Enabled
        } else {
            EnableState::Disabled
        }
    }
}

impl vstd::std_specs::convert::FromSpecImpl<bool> for EnableState {
    open spec fn obeys_from_spec() -> bool {
        true
    }

    open spec fn from_spec(b: bool) -> Self {
        if b {
            EnableState::Enabled
        } else {
            EnableState::Disabled
        }
    }
}

/// Visibility levels of projects.
#[derive(Debug, Clone, Copy, PartialEq, Eq, Structural)]
pub enum VisibilityLevel {
    /// The project is visible to anonymous users.
    Public,
    /// The project is visible to logged in users.
    Internal,
    /// The project is visible only to users with explicit access.
    Private,
}

impl VisibilityLevel {
    /// The parameter value of the visibility level.
    pub open spec fn spec_str(self) -> Seq<char> {
        match self {
            VisibilityLevel::Public => "public"@,
            VisibilityLevel::Internal => "internal"@,
            VisibilityLevel::Private => "private"@,
        }
    }

    /// The string representation of the visibility level.
    pub fn as_str(self) -> (r: &'static str)
        ensures
            r@ == self.spec_str(),
    {
        match self {
            VisibilityLevel::Public => "public",
            VisibilityLevel::Internal => "internal",
            VisibilityLevel::Private => "private",
        }
    }
}

/// A `yes` or `no`.
///
/// Some endpoints use this terminology.
#[derive(Debug, Clone, Copy, PartialEq, Eq, Structural)]
pub enum YesNo {
    /// A `yes` response.
    Yes,
    /// A `no` response.
    No,
}

impl YesNo {
    /// The parameter value of the option.
    pub open spec fn spec_str(self) -> Seq<char> {
        match self {
            YesNo::Yes => "yes"@,
            YesNo::No => "no"@,
        }
    }

    /// The string representation of the option.
    pub fn as_str(self) -> (r: &'static str)
        ensures
            r@ == self.spec_str(),
    {
        match self {
            YesNo::Yes => "yes",
            YesNo::No => "no",
        }
    }
}

impl From<bool> for YesNo {
    fn from(b: bool) -> (r: Self) {
        if b {
            YesNo::Yes
        } else {
            YesNo::No
        }
    }
}

impl vstd::std_specs::convert::FromSpecImpl<bool> for YesNo {
    open spec fn obeys_from_spec() -> bool {
        true
    }

    open spec fn from_spec(b: bool) -> Self {
        if b {
            YesNo::Yes
        } else {
            YesNo::No
        }
    }
}

/// Access levels for protected branches and tags.
#[derive(Debug, Clone, Copy, PartialEq, Eq, PartialOrd, Ord, Structural)]
pub enum ProtectedAccessLevel {
    /// Developers and maintainers may perform the action.
    Developer,
    /// Maintainers may perform the action.
    Maintainer,
    /// Only administrators may perform the action.
    Admin,
    /// The action is not allowed at all.
    NoAccess,
}

impl Default for ProtectedAccessLevel {
    fn default() -> (r: Self)
        ensures
            r == ProtectedAccessLevel::Maintainer,
    {
        ProtectedAccessLevel::Maintainer
    }
}

impl ProtectedAccessLevel {
    /// The parameter value of the access level.
    pub open spec fn spec_str(self) -> Seq<char> {
        match self {
            ProtectedAccessLevel::Developer => "30"@,
            ProtectedAccessLevel::Maintainer => "40"@,
            ProtectedAccessLevel::Admin => "60"@,
            ProtectedAccessLevel::NoAccess => "0"@,
        }
    }

    /// The string representation of the access level.
    pub fn as_str(self) -> (r: &'static str)
        ensures
            r@ == self.spec_str(),
    {
        match self {
            ProtectedAccessLevel::Developer => "30",
            ProtectedAccessLevel::Maintainer => "40",
            ProtectedAccessLevel::Admin => "60",
            ProtectedAccessLevel::NoAccess => "0",
        }
    }
}

/// Whether a byte is escaped in a URL path segment: controls, non-ASCII bytes
/// and the characters ` "#<>`?{}%/`.
pub open spec fn in_path_escape_set(b: u8) -> bool {
    b < 0x20 || b >= 0x7F || b == 0x20 || b == 0x22 || b == 0x23 || b == 0x3C || b == 0x3E || b
        == 0x60 || b == 0x3F || b == 0x7B || b == 0x7D || b == 0x25 || b == 0x2F
}

/// The character of a hexadecimal digit, upper case.
pub open spec fn hex_char(d: u8) -> char {
    if d < 10 {
        (48 + d) as u8 as char
    } else {
        (55 + d) as u8 as char
    }
}

/// The text that stands for one byte in an escaped path segment.
pub open spec fn escaped_byte(b: u8) -> Seq<char> {
    if in_path_escape_set(b) {
        seq!['%', hex_char(b / 16), hex_char(b % 16)]
    } else {
        seq![b as char]
    }
}

/// The escaped form of a sequence of bytes.
pub open spec fn escaped(bytes: Seq<u8>) -> Seq<char>
    decreases bytes.len(),
{
    if bytes.len() == 0 {
        Seq::empty()
    } else {
        escaped(bytes.drop_last()) + escaped_byte(bytes.last())
    }
}

/// The one-character text of a printable ASCII byte.
fn printable(b: u8) -> (r: &'static str)
    requires
        32 <= b < 127,
    ensures
        r@ == seq![b as char],
{
    let table = " !\"#$%&'()*+,-./0123456789:;<=>?@ABCDEFGHIJKLMNOPQRSTUVWXYZ[\\]^_`abcdefghijklmnopqrstuvwxyz{|}~";
    proof {
        reveal_strlit(
            " !\"#$%&'()*+,-./0123456789:;<=>?@ABCDEFGHIJKLMNOPQRSTUVWXYZ[\\]^_`abcdefghijklmnopqrstuvwxyz{|}~",
        );
    }
    let i = (b - 32) as usize;
    assert(table@[i as int] == b as char);
    table.substring_char(i, i + 1)
}

/// The one-character text of a hexadecimal digit.
fn hex_str(d: u8) -> (r: &'static str)
    requires
        d < 16,
    ensures
        r@ == seq![hex_char(d)],
{
    if d < 10 {
        printable(48 + d)
    } else {
        printable(55 + d)
    }
}

/// Escape a string for usage as a single URL path component: each byte of its
/// UTF-8 form that is in the escape set becomes `%` and two upper-case hex
/// digits.
pub fn path_escaped(input: &str) -> (r: String)
    ensures
        r@ == escaped(encode_utf8(input@)),
{
    let bytes = input.as_bytes();
    let mut r = String::new();
    let mut i: usize = 0;
    assert(bytes@.subrange(0, 0) =~= Seq::<u8>::empty());
    while i < bytes.len()
        invariant
            bytes@ == input.spec_bytes(),
            i <= bytes@.len(),
            r@ == escaped(bytes@.subrange(0, i as int)),
        decreases bytes.len() - i,
    {
        let b = bytes[i];
        assert(bytes@.subrange(0, i + 1).drop_last() =~= bytes@.subrange(0, i as int));
        if b < 0x20 || b >= 0x7F || b == 0x20 || b == 0x22 || b == 0x23 || b == 0x3C || b == 0x3E
            || b == 0x60 || b == 0x3F || b == 0x7B || b == 0x7D || b == 0x25 || b == 0x2F {
            r.append("%");
            r.append(hex_str(b / 16));
            r.append(hex_str(b % 16));
            proof {
                reveal_strlit("%");
            }
            assert(r@ =~= escaped(bytes@.subrange(0, i as int)) + escaped_byte(b));
        } else {
            r.append(printable(b));
        }
        i = i + 1;
    }
    assert(bytes@.subrange(0, bytes@.len() as int) =~= bytes@);
    r
}

/// A name or ID where either is allowed.
#[derive(Debug, Clone, PartialEq, Eq)]
pub enum NameOrId {
    /// The name of the entity.
    ///
    /// Note that numeric names are ambiguous to GitLab. There is nothing done
    /// with this crate which attempts to resolve this ambiguity.
    Name(String),
    /// The ID of the entity.
    Id(u64),
}

impl NameOrId {
    /// The text of the name or ID in a URL path.
    pub open spec fn spec_path(&self) -> Seq<char> {
        match self {
            NameOrId::Name(name) => escaped(encode_utf8(name@)),
            NameOrId::Id(id) => decimal(*id as nat),
        }
    }

    /// The name or ID as it stands in a URL path: the escaped name, or the
    /// decimal ID.
    pub fn to_string(&self) -> (r: String)
        ensures
            r@ == self.spec_path(),
    {
        match self {
            NameOrId::Name(name) => path_escaped(name.as_str()),
            NameOrId::Id(id) => to_decimal(*id),
        }
    }
}

impl From<u64> for NameOrId {
    fn from(id: u64) -> (r: Self) {
        NameOrId::Id(id)
    }
}

impl vstd::std_specs::convert::FromSpecImpl<u64> for NameOrId {
    open spec fn obeys_from_spec() -> bool {
        true
    }

    open spec fn from_spec(id: u64) -> Self {
        NameOrId::Id(id)
    }
}

impl From<String> for NameOrId {
    fn from(name: String) -> (r: Self) {
        NameOrId::Name(name)
    }
}

impl vstd::std_specs::convert::FromSpecImpl<String> for NameOrId {
    open spec fn obeys_from_spec() -> bool {
        true
    }

    open spec fn from_spec(name: String) -> Self {
        NameOrId::Name(name)
    }
}

impl<'a> From<&'a str> for NameOrId {
    fn from(name: &'a str) -> (r: Self)
        ensures
            r is Name && r->Name_0@ == name@,
    {
        NameOrId::Name(String::from_str(name))
    }
}

/// The `String` that `from` makes is not a spec value, so its result is
/// described by the `ensures` of `from` alone.
impl<'a> vstd::std_specs::convert::FromSpecImpl<&'a str> for NameOrId {
    open spec fn obeys_from_spec() -> bool {
        false
    }

    open spec fn from_spec(name: &'a str) -> Self {
        arbitrary()
    }
}

} // verus!
