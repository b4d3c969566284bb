//! Conformance findings and the text checks that produce them.

use crate::lenient::VectorStringish;
use crate::response::RdapResponse;
use crate::text::{all_white_space, is_white_space, is_whitespace};
use vstd::prelude::*;

pub mod walk;

verus! {

/// Whether `c` is a letter, a digit or a hyphen of ASCII.
pub open spec fn is_ldh_char(c: char) -> bool {
    let n = c as u32;
    ||| 0x41 <= n <= 0x5A
    ||| 0x61 <= n <= 0x7A
    ||| 0x30 <= n <= 0x39
    ||| n == 0x2D
}

/// Whether `s` is not empty and made of letters, digits and hyphens only.
pub open spec fn is_ldh_text(s: Seq<char>) -> bool {
    s.len() > 0 && forall|i: int| 0 <= i < s.len() ==> is_ldh_char(#[trigger] s[i])
}

/// Whether `s` is the root `.` or a sequence of LDH labels, none of them
/// empty, with a dot between each two and possibly one at the end.
pub open spec fn is_ldh_domain_text(s: Seq<char>) -> bool {
    ||| s == seq!['.']
    ||| {
        &&& s.len() > 0
        &&& s[0] != '.'
        &&& forall|i: int| 0 <= i < s.len() ==> is_ldh_char(#[trigger] s[i]) || s[i] == '.'
        &&& forall|i: int| 0 <= i < s.len() - 1 ==> !(#[trigger] s[i] == '.' && s[i + 1] == '.')
    }
}

/// Whether the list is empty or holds a text that is empty or white space.
pub open spec fn any_blank(items: Seq<Seq<char>>) -> bool {
    items.len() == 0 || exists|i: int| 0 <= i < items.len() && all_white_space(#[trigger] items[i])
}

/// Whether the list is not empty and holds LDH texts only.
pub open spec fn all_ldh(items: Seq<Seq<char>>) -> bool {
    items.len() > 0 && forall|i: int| 0 <= i < items.len() ==> is_ldh_text(#[trigger] items[i])
}

/// Whether `c` is a letter, a digit or a hyphen of ASCII.
pub fn is_ldh(c: char) -> (r: bool)
    ensures
        r == is_ldh_char(c),
{
    let n: u32 = c as u32;
    (0x41 <= n && n <= 0x5A) || (0x61 <= n && n <= 0x7A) || (0x30 <= n && n <= 0x39) || n == 0x2D
}

/// Whether `s` is empty or white space only.
pub fn is_whitespace_or_empty(s: &str) -> (r: bool)
    ensures
        r == all_white_space(s@),
{
    let mut all: bool = true;
    for c in it: s.chars()
        invariant
            it.seq() == s@,
            all == (forall|i: int| 0 <= i < it.index() ==> is_white_space(#[trigger] s@[i])),
    {
        all = all && is_whitespace(c);
    }
    all
}

/// Whether `s` is not empty and made of letters, digits and hyphens only.
pub fn is_ldh_string(s: &str) -> (r: bool)
    ensures
        r == is_ldh_text(s@),
{
    let mut all: bool = true;
    let mut n: usize = 0;
    for c in it: s.chars()
        invariant
            it.seq() == s@,
            n == if it.index() == 0 { 0usize } else { 1usize },
            all == (forall|i: int| 0 <= i < it.index() ==> is_ldh_char(#[trigger] s@[i])),
    {
        all = all && is_ldh(c);
        n = 1;
    }
    all && n > 0
}

/// Whether `s` is a domain name in LDH form.
pub fn is_ldh_domain_name(s: &str) -> (r: bool)
    ensures
        r == is_ldh_domain_text(s@),
{
    let mut ok: bool = true;
    let mut count: usize = 0;
    let mut first_dot: bool = false;
    let mut last_dot: bool = false;
    for c in it: s.chars()
        invariant
            it.seq() == s@,
            count == if it.index() == 0 {
                0usize
            } else if it.index() == 1 {
                1usize
            } else {
                2usize
            },
            it.index() > 0 ==> first_dot == (s@[0] == '.'),
            it.index() > 0 ==> last_dot == (s@[it.index() - 1] == '.'),
            ok == {
                &&& forall|i: int|
                    0 <= i < it.index() ==> is_ldh_char(#[trigger] s@[i]) || s@[i] == '.'
                &&& forall|i: int|
                    0 <= i < it.index() - 1 ==> !(#[trigger] s@[i] == '.' && s@[i + 1] == '.')
            },
    {
        let dot = c == '.';
        if count == 0 {
            first_dot = dot;
        }
        if dot {
            if count > 0 && last_dot {
                ok = false;
            }
        } else if !is_ldh(c) {
            ok = false;
        }
        last_dot = dot;
        if count < 2 {
            count += 1;
        }
    }
    if count == 1 && first_dot {
        assert(s@ =~= seq!['.']);
        true
    } else {
        assert(s@ == seq!['.'] ==> s@.len() == 1 && s@[0] == '.');
        ok && count > 0 && !first_dot
    }
}

/// Checks on lists of strings.
pub trait StringListCheck {
    /// The texts of the list.
    spec fn items(&self) -> Seq<Seq<char>>;

    /// Whether the list is empty or holds a string that is empty or white
    /// space.
    fn is_empty_or_any_empty_or_whitespace(&self) -> (r: bool)
        ensures
            r == any_blank(self.items()),
    ;

    /// Whether the list is not empty and holds LDH strings only.
    fn is_ldh_string_list(&self) -> (r: bool)
        ensures
            r == all_ldh(self.items()),
    ;
}

impl StringListCheck for Vec<String> {
    open spec fn items(&self) -> Seq<Seq<char>> {
        self.deep_view()
    }

    fn is_empty_or_any_empty_or_whitespace(&self) -> (r: bool) {
        if self.len() == 0 {
            assert(self.items().len() == 0);
            return true;
        }
        let mut i: usize = 0;
        while i < self.len()
            invariant
                i <= self.len(),
                forall|k: int| 0 <= k < i ==> !all_white_space(#[trigger] self.deep_view()[k]),
            decreases self.len() - i,
        {
            assert(self.deep_view()[i as int] == self@[i as int]@);
            if is_whitespace_or_empty(self[i].as_str()) {
                return true;
            }
            i += 1;
        }
        false
    }

    fn is_ldh_string_list(&self) -> (r: bool) {
        if self.len() == 0 {
            return false;
        }
        let mut i: usize = 0;
        while i < self.len()
            invariant
                i <= self.len(),
                forall|k: int| 0 <= k < i ==> is_ldh_text(#[trigger] self.deep_view()[k]),
            decreases self.len() - i,
        {
            assert(self.deep_view()[i as int] == self@[i as int]@);
            if !is_ldh_string(self[i].as_str()) {
                return false;
            }
            i += 1;
        }
        true
    }
}

impl StringListCheck for VectorStringish {
    open spec fn items(&self) -> Seq<Seq<char>> {
        self@.items
    }

    fn is_empty_or_any_empty_or_whitespace(&self) -> (r: bool) {
        let v = self.vec();
        let r = v.is_empty_or_any_empty_or_whitespace();
        assert(v.items() == self.items());
        assert(r == any_blank(v.items()));
        r
    }

    fn is_ldh_string_list(&self) -> (r: bool) {
        let v = self.vec();
        assert(v.items() == self@.items);
        v.is_ldh_string_list()
    }
}

/// How grave a finding is, and which rules it comes from.
#[derive(Debug, Clone, Copy, PartialEq, Eq, Structural, Hash)]
pub enum CheckClass {
    /// Worth knowing: a recommended member is missing.
    Informational,
    /// The server deviates from the shape that the standard gives, in a way
    /// that is tolerated.
    SpecificationNote,
    /// STD 95 is not followed where it recommends.
    StdErrorWarning,
    /// STD 95 is violated.
    StdErrorViolation,
    /// The cidr0 extension is violated.
    Cidr0Error,
    /// The ICANN profile is violated.
    IcannError,
}

/// The length of the longest label of a [`CheckClass`].
pub const CHECK_CLASS_LEN: usize = 8;

impl CheckClass {
    /// The short label of the class.
    pub open spec fn label(self) -> Seq<char> {
        match self {
            CheckClass::Informational => "Info"@,
            CheckClass::SpecificationNote => "SpecNote"@,
            CheckClass::StdErrorWarning => "StdWarn"@,
            CheckClass::StdErrorViolation => "StdErr"@,
            CheckClass::Cidr0Error => "Cidr0Err"@,
            CheckClass::IcannError => "IcannErr"@,
        }
    }

    /// The short label of the class.
    pub fn to_string(&self) -> (r: String)
        ensures
            r@ == self.label(),
    {
        match self {
            CheckClass::Informational => "Info".to_owned(),
            CheckClass::SpecificationNote => "SpecNote".to_owned(),
            CheckClass::StdErrorWarning => "StdWarn".to_owned(),
            CheckClass::StdErrorViolation => "StdErr".to_owned(),
            CheckClass::Cidr0Error => "Cidr0Err".to_owned(),
            CheckClass::IcannError => "IcannErr".to_owned(),
        }
    }
}

/// No label is longer than [`CHECK_CLASS_LEN`], and one is as long.
pub proof fn law_check_class_len(c: CheckClass)
    ensures
        c.label().len() <= CHECK_CLASS_LEN,
        CheckClass::SpecificationNote.label().len() == CHECK_CLASS_LEN,
{
    reveal_strlit("Info");
    reveal_strlit("SpecNote");
    reveal_strlit("StdWarn");
    reveal_strlit("StdErr");
    reveal_strlit("Cidr0Err");
    reveal_strlit("IcannErr");
}

/// The findings that a check can make.
#[derive(Debug, Clone, Copy, PartialEq, Eq, Structural, Hash)]
pub enum Check {
    // Recommended members that are missing.
    EventsMissing,
    StatusMissing,
    HandleMissing,
    // Tolerated deviations in shape.
    StatusIsString,
    RolesIsString,
    NoticeDescriptionIsString,
    ZoneSignedIsString,
    DelegationSignedIsString,
    MaxSigLifeIsString,
    StartAutnumIsString,
    EndAutnumIsString,
    Cidr0LengthIsString,
    IpAddressListIsString,
    // Violations in structure.
    StatusIsEmpty,
    RolesIsEmpty,
    HandleIsEmpty,
    LdhNameInvalid,
    Cidr0Malformed,
    AutnumRangeInverted,
    NetworkRangeInverted,
    RdapConformanceInvalidParent,
    RdapLevel0Missing,
    // What the standard asks for and is missing.
    SelfLinkMissing,
    RdapConformanceMissing,
    NoticesMissing,
    UnknownExtension,
}

impl Check {
    /// The class of the finding.
    pub open spec fn spec_class(self) -> CheckClass {
        match self {
            Check::EventsMissing | Check::StatusMissing | Check::HandleMissing => {
                CheckClass::Informational
            },
            Check::StatusIsString
            | Check::RolesIsString
            | Check::NoticeDescriptionIsString
            | Check::ZoneSignedIsString
            | Check::DelegationSignedIsString
            | Check::MaxSigLifeIsString
            | Check::StartAutnumIsString
            | Check::EndAutnumIsString
            | Check::Cidr0LengthIsString
            | Check::IpAddressListIsString => CheckClass::SpecificationNote,
            Check::StatusIsEmpty
            | Check::RolesIsEmpty
            | Check::HandleIsEmpty
            | Check::LdhNameInvalid
            | Check::Cidr0Malformed
            | Check::AutnumRangeInverted
            | Check::NetworkRangeInverted
            | Check::RdapConformanceInvalidParent
            | Check::RdapLevel0Missing => CheckClass::StdErrorViolation,
            Check::SelfLinkMissing
            | Check::RdapConformanceMissing
            | Check::NoticesMissing
            | Check::UnknownExtension => CheckClass::StdErrorWarning,
        }
    }

    /// The number of the finding; the hundreds tell its class.
    pub open spec fn spec_code(self) -> u32 {
        match self {
            Check::EventsMissing => 100,
            Check::StatusMissing => 101,
            Check::HandleMissing => 102,
            Check::StatusIsString => 200,
            Check::RolesIsString => 201,
            Check::NoticeDescriptionIsString => 202,
            Check::ZoneSignedIsString => 203,
            Check::DelegationSignedIsString => 204,
            Check::MaxSigLifeIsString => 205,
            Check::StartAutnumIsString => 206,
            Check::EndAutnumIsString => 207,
            Check::Cidr0LengthIsString => 208,
            Check::IpAddressListIsString => 209,
            Check::StatusIsEmpty => 400,
            Check::RolesIsEmpty => 401,
            Check::HandleIsEmpty => 402,
            Check::LdhNameInvalid => 403,
            Check::Cidr0Malformed => 404,
            Check::AutnumRangeInverted => 405,
            Check::NetworkRangeInverted => 406,
            Check::RdapConformanceInvalidParent => 407,
            Check::RdapLevel0Missing => 408,
            Check::SelfLinkMissing => 300,
            Check::RdapConformanceMissing => 301,
            Check::NoticesMissing => 302,
            Check::UnknownExtension => 303,
        }
    }

    /// The message of the finding.
    pub open spec fn message(self) -> Seq<char> {
        match self {
            Check::EventsMissing => "'events' is recommended but missing."@,
            Check::StatusMissing => "'status' is recommended but missing."@,
            Check::HandleMissing => "'handle' is recommended but missing."@,
            Check::StatusIsString => "'status' is a string, not an array of strings."@,
            Check::RolesIsString => "'roles' is a string, not an array of strings."@,
            Check::NoticeDescriptionIsString => "'description' is a string, not an array of strings."@,
            Check::ZoneSignedIsString => "'zoneSigned' is a string, not a boolean."@,
            Check::DelegationSignedIsString => "'delegationSigned' is a string, not a boolean."@,
            Check::MaxSigLifeIsString => "'maxSigLife' is a string, not a number."@,
            Check::StartAutnumIsString => "'startAutnum' is a string, not a number."@,
            Check::EndAutnumIsString => "'endAutnum' is a string, not a number."@,
            Check::Cidr0LengthIsString => "'length' of a CIDR is a string, not a number."@,
            Check::IpAddressListIsString => "an IP address list is a string, not an array of strings."@,
            Check::StatusIsEmpty => "'status' is empty or holds an empty string."@,
            Check::RolesIsEmpty => "'roles' is empty or holds an empty string."@,
            Check::HandleIsEmpty => "'handle' is empty or white space."@,
            Check::LdhNameInvalid => "'ldhName' is not a name of letters, digits and hyphens."@,
            Check::Cidr0Malformed => "a CIDR lacks its prefix or length, or they do not fit."@,
            Check::AutnumRangeInverted => "'startAutnum' is greater than 'endAutnum'."@,
            Check::NetworkRangeInverted => "'startAddress' is greater than 'endAddress'."@,
            Check::RdapConformanceInvalidParent => "'rdapConformance' is not at the top of the response."@,
            Check::RdapLevel0Missing => "'rdapConformance' does not name 'rdap_level_0'."@,
            Check::SelfLinkMissing => "a link with the relation 'self' is missing."@,
            Check::RdapConformanceMissing => "'rdapConformance' is missing."@,
            Check::NoticesMissing => "'notices' is missing."@,
            Check::UnknownExtension => "'rdapConformance' names an extension that is not registered."@,
        }
    }

    /// The class of the finding.
    #[verifier::when_used_as_spec(spec_class)]
    pub fn class(self) -> (r: CheckClass)
        ensures
            r == self.spec_class(),
    {
        match self {
            Check::EventsMissing | Check::StatusMissing | Check::HandleMissing => {
                CheckClass::Informational
            },
            Check::StatusIsString
            | Check::RolesIsString
            | Check::NoticeDescriptionIsString
            | Check::ZoneSignedIsString
            | Check::DelegationSignedIsString
            | Check::MaxSigLifeIsString
            | Check::StartAutnumIsString
            | Check::EndAutnumIsString
            | Check::Cidr0LengthIsString
            | Check::IpAddressListIsString => CheckClass::SpecificationNote,
            Check::StatusIsEmpty
            | Check::RolesIsEmpty
            | Check::HandleIsEmpty
            | Check::LdhNameInvalid
            | Check::Cidr0Malformed
            | Check::AutnumRangeInverted
            | Check::NetworkRangeInverted
            | Check::RdapConformanceInvalidParent
            | Check::RdapLevel0Missing => CheckClass::StdErrorViolation,
            Check::SelfLinkMissing
            | Check::RdapConformanceMissing
            | Check::NoticesMissing
            | Check::UnknownExtension => CheckClass::StdErrorWarning,
        }
    }

    /// The number of the finding.
    #[verifier::when_used_as_spec(spec_code)]
    pub fn code(self) -> (r: u32)
        ensures
            r == self.spec_code(),
    {
        match self {
            Check::EventsMissing => 100,
            Check::StatusMissing => 101,
            Check::HandleMissing => 102,
            Check::StatusIsString => 200,
            Check::RolesIsString => 201,
            Check::NoticeDescriptionIsString => 202,
            Check::ZoneSignedIsString => 203,
            Check::DelegationSignedIsString => 204,
            Check::MaxSigLifeIsString => 205,
            Check::StartAutnumIsString => 206,
            Check::EndAutnumIsString => 207,
            Check::Cidr0LengthIsString => 208,
            Check::IpAddressListIsString => 209,
            Check::StatusIsEmpty => 400,
            Check::RolesIsEmpty => 401,
            Check::HandleIsEmpty => 402,
            Check::LdhNameInvalid => 403,
            Check::Cidr0Malformed => 404,
            Check::AutnumRangeInverted => 405,
            Check::NetworkRangeInverted => 406,
            Check::RdapConformanceInvalidParent => 407,
            Check::RdapLevel0Missing => 408,
            Check::SelfLinkMissing => 300,
            Check::RdapConformanceMissing => 301,
            Check::NoticesMissing => 302,
            Check::UnknownExtension => 303,
        }
    }

    /// The message of the finding.
    pub fn get_message(&self) -> (r: &'static str)
        ensures
            r@ == self.message(),
    {
        match self {
            Check::EventsMissing => "'events' is recommended but missing.",
            Check::StatusMissing => "'status' is recommended but missing.",
            Check::HandleMissing => "'handle' is recommended but missing.",
            Check::StatusIsString => "'status' is a string, not an array of strings.",
            Check::RolesIsString => "'roles' is a string, not an array of strings.",
            Check::NoticeDescriptionIsString => "'description' is a string, not an array of strings.",
            Check::ZoneSignedIsString => "'zoneSigned' is a string, not a boolean.",
            Check::DelegationSignedIsString => "'delegationSigned' is a string, not a boolean.",
            Check::MaxSigLifeIsString => "'maxSigLife' is a string, not a number.",
            Check::StartAutnumIsString => "'startAutnum' is a string, not a number.",
            Check::EndAutnumIsString => "'endAutnum' is a string, not a number.",
            Check::Cidr0LengthIsString => "'length' of a CIDR is a string, not a number.",
            Check::IpAddressListIsString => "an IP address list is a string, not an array of strings.",
            Check::StatusIsEmpty => "'status' is empty or holds an empty string.",
            Check::RolesIsEmpty => "'roles' is empty or holds an empty string.",
            Check::HandleIsEmpty => "'handle' is empty or white space.",
            Check::LdhNameInvalid => "'ldhName' is not a name of letters, digits and hyphens.",
            Check::Cidr0Malformed => "a CIDR lacks its prefix or length, or they do not fit.",
            Check::AutnumRangeInverted => "'startAutnum' is greater than 'endAutnum'.",
            Check::NetworkRangeInverted => "'startAddress' is greater than 'endAddress'.",
            Check::RdapConformanceInvalidParent => "'rdapConformance' is not at the top of the response.",
            Check::RdapLevel0Missing => "'rdapConformance' does not name 'rdap_level_0'.",
            Check::SelfLinkMissing => "a link with the relation 'self' is missing.",
            Check::RdapConformanceMissing => "'rdapConformance' is missing.",
            Check::NoticesMissing => "'notices' is missing.",
            Check::UnknownExtension => "'rdapConformance' names an extension that is not registered.",
        }
    }

    /// The finding with its class.
    pub fn check_item(self) -> (r: CheckItem)
        ensures
            r == (CheckItem { check_class: self.spec_class(), check: self }),
    {
        CheckItem { check_class: self.class(), check: self }
    }
}

/// A finding and its class.
#[derive(Debug, Clone, Copy, PartialEq, Eq, Structural, Hash)]
pub struct CheckItem {
    pub check_class: CheckClass,
    pub check: Check,
}

/// The structures of a response that are checked.
#[derive(Debug, Clone, Copy, PartialEq, Eq, Structural, Hash)]
pub enum RdapStructure {
    /// The response as a whole.
    Response,
    Autnum,
    Domain,
    DomainSearchResults,
    Entity,
    EntitySearchResults,
    Error,
    Help,
    Nameserver,
    NameserverSearchResults,
    Network,
}

/// The findings on a structure, and those on the structures within it.
#[derive(Debug, PartialEq, Eq)]
pub struct Checks {
    pub rdap_struct: RdapStructure,
    pub items: Vec<CheckItem>,
    pub sub_checks: Vec<Checks>,
}

/// How a response is checked.
#[derive(Clone, Copy)]
pub struct CheckParams<'a> {
    /// Whether the structures within a structure are checked too.
    pub do_subchecks: bool,
    /// The response that is checked.
    pub root: &'a RdapResponse,
    /// The structure that holds the one that is checked.
    pub parent_type: RdapStructure,
    /// Whether extensions that are not registered are let pass.
    pub allow_unreg_ext: bool,
}

} // verus!
