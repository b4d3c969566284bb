//! Renders responses as Markdown.
//!
//! Each object is rendered as a header with its name, followed by the list of
//! the findings of the conformance check whose classes were asked for.

use crate::check::walk::GetChecks;
use crate::check::{CheckClass, CheckItem, CheckParams, Checks, RdapStructure, CHECK_CLASS_LEN};
use crate::httpdata::HttpData;
use crate::response::{
    Autnum, Domain, DomainSearchResults, Entity, EntitySearchResults, Help, Nameserver,
    NameserverSearchResults, Network, RdapResponse, Rfc9083Error,
};
use crate::text::{decimal, push_decimal};
use vstd::prelude::*;
use vstd::string::StringExecFns;

verus! {

/// A horizontal rule.
pub const HR: &'static str = "----------------------------------------\n";

/// Options for generating Markdown.
pub struct MdOptions {
    /// If true, do not use Unicode characters.
    pub no_unicode_chars: bool,
    /// The character used for text styling of bold and italics.
    pub text_style_char: char,
    /// If true, headers are marked with hashes, else underlined.
    pub hash_headers: bool,
    /// If true, the style characters count as part of a justified text.
    pub style_in_justify: bool,
}

impl Default for MdOptions {
    fn default() -> (r: Self)
        ensures
            r == (MdOptions {
                no_unicode_chars: false,
                text_style_char: '*',
                hash_headers: true,
                style_in_justify: false,
            }),
    {
        Self {
            no_unicode_chars: false,
            text_style_char: '*',
            hash_headers: true,
            style_in_justify: false,
        }
    }
}

impl MdOptions {
    /// Options for Markdown that looks more like plain text.
    pub fn plain_text() -> (r: Self)
        ensures
            r == (MdOptions {
                no_unicode_chars: true,
                text_style_char: '_',
                hash_headers: false,
                style_in_justify: true,
            }),
    {
        Self {
            no_unicode_chars: true,
            text_style_char: '_',
            hash_headers: false,
            style_in_justify: true,
        }
    }
}

/// The request that a response answers.
#[derive(Clone, Copy)]
pub struct RequestData<'a> {
    /// The number of the request in a series, the first being 1.
    pub req_number: usize,
    /// The host that was asked.
    pub source_host: &'a str,
}

/// What a rendering works with.
#[derive(Clone, Copy)]
pub struct MdParams<'a> {
    pub heading_level: usize,
    pub root: &'a RdapResponse,
    pub http_data: &'a HttpData,
    pub parent_type: RdapStructure,
    pub check_types: &'a [CheckClass],
    pub options: &'a MdOptions,
    pub req_data: &'a RequestData<'a>,
}

impl<'a> MdParams<'a> {
    /// The same parameters for a structure within `parent_type`.
    pub fn from_parent(&self, parent_type: RdapStructure) -> (r: Self)
        ensures
            r == (MdParams { parent_type, ..*self }),
    {
        Self {
            parent_type,
            heading_level: self.heading_level,
            root: self.root,
            http_data: self.http_data,
            check_types: self.check_types,
            options: self.options,
            req_data: self.req_data,
        }
    }

    /// The same parameters one heading level deeper.
    pub fn next_level(&self) -> (r: Self)
        requires
            self.heading_level < usize::MAX,
        ensures
            r == (MdParams { heading_level: (self.heading_level + 1) as usize, ..*self }),
    {
        Self {
            heading_level: self.heading_level + 1,
            parent_type: self.parent_type,
            root: self.root,
            http_data: self.http_data,
            check_types: self.check_types,
            options: self.options,
            req_data: self.req_data,
        }
    }

    /// The same parameters one heading level deeper, or `None` at the deepest
    /// level that there is.
    pub fn checked_next_level(&self) -> (r: Option<Self>)
        ensures
            r is Some <==> self.heading_level < usize::MAX,
            r matches Some(p) ==> p == (MdParams {
                heading_level: (self.heading_level + 1) as usize,
                ..*self
            }),
    {
        if self.heading_level < usize::MAX {
            Some(self.next_level())
        } else {
            None
        }
    }
}

/// `n` times the character `c`.
pub open spec fn repeated(c: char, n: nat) -> Seq<char> {
    Seq::new(n, |i: int| c)
}

/// `s` between two style characters.
pub open spec fn em_text(s: Seq<char>, options: MdOptions) -> Seq<char> {
    seq![options.text_style_char] + s + seq![options.text_style_char]
}

/// `s` with spaces before it up to the width `width`; `s` itself if it is as
/// wide or wider.
pub open spec fn right_text(s: Seq<char>, width: nat) -> Seq<char> {
    if s.len() < width {
        repeated(' ', (width - s.len()) as nat) + s
    } else {
        s
    }
}

/// `s` in style and flush right in `width`: either styled and then justified,
/// so that the style characters count for the width, or the other way round.
pub open spec fn right_em_text(s: Seq<char>, width: nat, options: MdOptions) -> Seq<char> {
    if options.style_in_justify {
        right_text(em_text(s, options), width)
    } else {
        em_text(right_text(s, width), options)
    }
}

/// A header of the level `level`: marked with that many hashes, or
/// underlined, with `=` at the first level and `-` below it.
pub open spec fn header_text(s: Seq<char>, level: nat, options: MdOptions) -> Seq<char> {
    if options.hash_headers {
        repeated('#', level) + " "@ + s + "\n\n"@
    } else {
        s + "\n"@ + repeated(
            if level == 1 {
                '='
            } else {
                '-'
            },
            s.len(),
        ) + "\n\n"@
    }
}

/// Appends `n` times the character `c`.
fn push_repeated(out: &mut String, c: char, n: usize)
    ensures
        final(out)@ == old(out)@ + repeated(c, n as nat),
{
    let mut i: usize = 0;
    assert(out@ =~= old(out)@ + repeated(c, 0));
    while i < n
        invariant
            i <= n,
            out@ == old(out)@ + repeated(c, i as nat),
        decreases n - i,
    {
        out.push(c);
        assert(out@ =~= old(out)@ + repeated(c, (i + 1) as nat));
        i += 1;
    }
}

/// `s` between two style characters.
pub fn to_em(s: &str, options: &MdOptions) -> (r: String)
    ensures
        r@ == em_text(s@, *options),
{
    let mut r = String::new();
    r.push(options.text_style_char);
    r.append(s);
    r.push(options.text_style_char);
    assert(r@ =~= em_text(s@, *options));
    r
}

/// `s` flush right in `width`.
pub fn to_right(s: &str, width: usize) -> (r: String)
    ensures
        r@ == right_text(s@, width as nat),
{
    let n = s.unicode_len();
    let mut r = String::new();
    if n < width {
        push_repeated(&mut r, ' ', width - n);
    }
    r.append(s);
    assert(r@ =~= right_text(s@, width as nat));
    r
}

/// `s` in style and flush right in `width`.
pub fn to_right_em(s: &str, width: usize, options: &MdOptions) -> (r: String)
    ensures
        r@ == right_em_text(s@, width as nat, *options),
{
    if options.style_in_justify {
        let styled = to_em(s, options);
        to_right(styled.as_str(), width)
    } else {
        let justified = to_right(s, width);
        to_em(justified.as_str(), options)
    }
}

/// `s` as a header of the level `level`.
pub fn to_header(s: &str, level: usize, options: &MdOptions) -> (r: String)
    ensures
        r@ == header_text(s@, level as nat, *options),
{
    let mut r = String::new();
    if options.hash_headers {
        push_repeated(&mut r, '#', level);
        r.append(" ");
        r.append(s);
        r.append("\n\n");
    } else {
        r.append(s);
        r.append("\n");
        let line = if level == 1 {
            '='
        } else {
            '-'
        };
        push_repeated(&mut r, line, s.unicode_len());
        r.append("\n\n");
    }
    assert(r@ =~= header_text(s@, level as nat, *options));
    r
}

/// The line of a finding in a list: a bullet, the label of its class in
/// style and flush right, a colon and its message.
pub open spec fn check_line(item: CheckItem, options: MdOptions) -> Seq<char> {
    "* "@ + right_em_text(item.check_class.label(), CHECK_CLASS_LEN as nat, options) + ": "@
        + item.check.message() + "\n"@
}

/// The list of the findings whose class is among `check_types`, one line for
/// each, in their order.
pub open spec fn checks_ul_text(
    items: Seq<CheckItem>,
    check_types: Seq<CheckClass>,
    options: MdOptions,
) -> Seq<char>
    decreases items.len(),
{
    if items.len() == 0 {
        Seq::empty()
    } else {
        let before = checks_ul_text(items.drop_last(), check_types, options);
        if check_types.contains(items.last().check_class) {
            before + check_line(items.last(), options)
        } else {
            before
        }
    }
}

/// Whether `class` is among `check_types`.
fn has_class(check_types: &[CheckClass], class: CheckClass) -> (r: bool)
    ensures
        r == check_types@.contains(class),
{
    let mut i: usize = 0;
    while i < check_types.len()
        invariant
            i <= check_types.len(),
            forall|k: int| 0 <= k < i ==> check_types@[k] != class,
        decreases check_types.len() - i,
    {
        if check_types[i] == class {
            return true;
        }
        i += 1;
    }
    false
}

/// The findings of `checks` whose class is asked for, as a Markdown list.
pub fn checks_ul(checks: &Checks, params: MdParams) -> (md: String)
    ensures
        md@ == checks_ul_text(checks.items@, params.check_types@, *params.options),
{
    let mut md = String::new();
    let mut i: usize = 0;
    while i < checks.items.len()
        invariant
            i <= checks.items.len(),
            md@ == checks_ul_text(
                checks.items@.take(i as int),
                params.check_types@,
                *params.options,
            ),
        decreases checks.items.len() - i,
    {
        let item = &checks.items[i];
        proof {
            let next = checks.items@.take(i as int + 1);
            assert(next.drop_last() =~= checks.items@.take(i as int));
            assert(next.last() == *item);
        }
        if has_class(params.check_types, item.check_class) {
            let label = item.check_class.to_string();
            let styled = to_right_em(label.as_str(), CHECK_CLASS_LEN, params.options);
            let ghost before = md@;
            md.append("* ");
            md.append(styled.as_str());
            md.append(": ");
            md.append(item.check.get_message());
            md.append("\n");
            assert(md@ =~= before + check_line(*item, *params.options));
        }
        i += 1;
    }
    assert(checks.items@.take(checks.items@.len() as int) =~= checks.items@);
    md
}

/// How the checker is set up from the parameters of a rendering.
pub trait FromMd<'a>: Sized {
    fn from_md(md_params: MdParams<'a>, parent_type: RdapStructure) -> (r: Self);

    fn from_md_no_parent(md_params: MdParams<'a>) -> (r: Self);
}

impl<'a> FromMd<'a> for CheckParams<'a> {
    fn from_md(md_params: MdParams<'a>, parent_type: RdapStructure) -> (r: Self)
        ensures
            r == (CheckParams {
                do_subchecks: false,
                root: md_params.root,
                parent_type,
                allow_unreg_ext: false,
            }),
    {
        Self { do_subchecks: false, root: md_params.root, parent_type, allow_unreg_ext: false }
    }

    fn from_md_no_parent(md_params: MdParams<'a>) -> (r: Self)
        ensures
            r == check_params_of(md_params),
    {
        Self {
            do_subchecks: false,
            root: md_params.root,
            parent_type: md_params.parent_type,
            allow_unreg_ext: false,
        }
    }
}

/// The parameters of the check that a rendering makes: the structure itself
/// only, under the parent that the rendering has, with no extension let pass
/// that is not registered.
pub open spec fn check_params_of(md_params: MdParams) -> CheckParams {
    CheckParams {
        do_subchecks: false,
        root: md_params.root,
        parent_type: md_params.parent_type,
        allow_unreg_ext: false,
    }
}

/// The text of a header and those of the headers below it.
pub struct MdHeaderText {
    header_text: String,
    children: Vec<MdHeaderText>,
}

impl MdHeaderText {
    /// The text of the header.
    pub closed spec fn text(&self) -> Seq<char> {
        self.header_text@
    }

    /// The texts of the headers below.
    pub closed spec fn below(&self) -> Seq<MdHeaderText> {
        self.children@
    }

    /// A header text with those below it.
    pub fn new(header_text: String, children: Vec<MdHeaderText>) -> (r: Self)
        ensures
            r.text() == header_text@,
            r.below() == children@,
    {
        MdHeaderText { header_text, children }
    }

    /// The text of the header.
    pub fn to_string(&self) -> (r: String)
        ensures
            r@ == self.text(),
    {
        self.header_text.clone()
    }

    /// The header texts below this one.
    pub fn children(&self) -> (r: &Vec<MdHeaderText>)
        ensures
            r@ == self.below(),
    {
        &self.children
    }
}

/// What has a header.
pub trait MdUtil {
    /// The text of the header.
    spec fn header(&self) -> Seq<char>;

    /// The header texts of what stands below.
    spec fn headers_below(&self) -> Seq<Seq<char>>;

    fn get_header_text(&self) -> (r: MdHeaderText)
        ensures
            r.text() == self.header(),
            r.below().len() == self.headers_below().len(),
            forall|i: int|
                0 <= i < r.below().len() ==> (#[trigger] r.below()[i]).text()
                    == self.headers_below()[i],
    ;
}

/// What is rendered as Markdown.
pub trait ToMd {
    /// The Markdown of the value.
    spec fn md(&self, params: MdParams) -> Seq<char>;

    fn to_md(&self, params: MdParams) -> (r: String)
        ensures
            r@ == self.md(params),
    ;
}

/// `label` alone, or followed by a space and the name.
pub open spec fn titled(label: Seq<char>, name: Option<Seq<char>>) -> Seq<char> {
    match name {
        Some(n) => label + " "@ + n,
        None => label,
    }
}

fn title(label: &str, name: Option<&str>) -> (r: String)
    ensures
        r@ == titled(
            label@,
            match name {
                Some(n) => Some(n@),
                None => None,
            },
        ),
{
    let mut r = label.to_owned();
    if let Some(n) = name {
        r.append(" ");
        r.append(n);
    }
    r
}

/// The first of two names that is present.
pub open spec fn first_name(a: Option<String>, b: Option<String>) -> Option<Seq<char>> {
    match a {
        Some(n) => Some(n@),
        None => match b {
            Some(n) => Some(n@),
            None => None,
        },
    }
}

fn first_of<'a>(a: &'a Option<String>, b: &'a Option<String>) -> (r: Option<&'a str>)
    ensures
        match r {
            Some(n) => first_name(*a, *b) == Some(n@),
            None => first_name(*a, *b) is None,
        },
{
    match a {
        Some(n) => Some(n.as_str()),
        None => match b {
            Some(n) => Some(n.as_str()),
            None => None,
        },
    }
}

/// The header texts of each of `list`.
pub open spec fn headers_of<T: MdUtil>(list: Seq<T>) -> Seq<Seq<char>> {
    Seq::new(list.len(), |i: int| list[i].header())
}

fn header_texts<T: MdUtil>(list: &Vec<T>) -> (r: Vec<MdHeaderText>)
    ensures
        r@.len() == list@.len(),
        forall|i: int| 0 <= i < r@.len() ==> (#[trigger] r@[i]).text() == headers_of(list@)[i],
{
    let mut out: Vec<MdHeaderText> = Vec::new();
    let mut i: usize = 0;
    while i < list.len()
        invariant
            i <= list.len(),
            out@.len() == i,
            forall|k: int| 0 <= k < i ==> (#[trigger] out@[k]).text() == list@[k].header(),
        decreases list.len() - i,
    {
        let h = list[i].get_header_text();
        out.push(h);
        i += 1;
    }
    out
}

impl MdUtil for Entity {
    open spec fn header(&self) -> Seq<char> {
        titled("Entity"@, first_name(self.handle, None))
    }

    open spec fn headers_below(&self) -> Seq<Seq<char>> {
        Seq::empty()
    }

    fn get_header_text(&self) -> (r: MdHeaderText) {
        let none: Option<String> = None;
        MdHeaderText::new(title("Entity", first_of(&self.handle, &none)), Vec::new())
    }
}

impl MdUtil for Nameserver {
    open spec fn header(&self) -> Seq<char> {
        titled("Nameserver"@, first_name(self.unicode_name, self.ldh_name))
    }

    open spec fn headers_below(&self) -> Seq<Seq<char>> {
        Seq::empty()
    }

    fn get_header_text(&self) -> (r: MdHeaderText) {
        MdHeaderText::new(
            title("Nameserver", first_of(&self.unicode_name, &self.ldh_name)),
            Vec::new(),
        )
    }
}

impl MdUtil for Domain {
    open spec fn header(&self) -> Seq<char> {
        titled("Domain"@, first_name(self.unicode_name, self.ldh_name))
    }

    open spec fn headers_below(&self) -> Seq<Seq<char>> {
        match self.nameservers {
            Some(n) => headers_of(n@),
            None => Seq::empty(),
        }
    }

    fn get_header_text(&self) -> (r: MdHeaderText) {
        let children = match &self.nameservers {
            Some(n) => header_texts(n),
            None => Vec::new(),
        };
        MdHeaderText::new(title("Domain", first_of(&self.unicode_name, &self.ldh_name)), children)
    }
}

impl MdUtil for Autnum {
    open spec fn header(&self) -> Seq<char> {
        titled(
            "Autonomous System"@,
            match self.start_autnum {
                Some(n) => match n@.value() {
                    Some(v) => Some(decimal(v as nat)),
                    None => None,
                },
                None => None,
            },
        )
    }

    open spec fn headers_below(&self) -> Seq<Seq<char>> {
        Seq::empty()
    }

    fn get_header_text(&self) -> (r: MdHeaderText) {
        let number = match &self.start_autnum {
            Some(n) => match n.as_u64() {
                Some(v) => Some(n.to_string()),
                None => None,
            },
            None => None,
        };
        let text = match &number {
            Some(n) => title("Autonomous System", Some(n.as_str())),
            None => title("Autonomous System", None),
        };
        MdHeaderText::new(text, Vec::new())
    }
}

impl MdUtil for Network {
    open spec fn header(&self) -> Seq<char> {
        titled("IP Network"@, first_name(self.start_address, None))
    }

    open spec fn headers_below(&self) -> Seq<Seq<char>> {
        Seq::empty()
    }

    fn get_header_text(&self) -> (r: MdHeaderText) {
        let none: Option<String> = None;
        MdHeaderText::new(title("IP Network", first_of(&self.start_address, &none)), Vec::new())
    }
}

impl MdUtil for DomainSearchResults {
    open spec fn header(&self) -> Seq<char> {
        "Domain Search Results"@
    }

    open spec fn headers_below(&self) -> Seq<Seq<char>> {
        headers_of(self.results@)
    }

    fn get_header_text(&self) -> (r: MdHeaderText) {
        MdHeaderText::new("Domain Search Results".to_owned(), header_texts(&self.results))
    }
}

impl MdUtil for EntitySearchResults {
    open spec fn header(&self) -> Seq<char> {
        "Entity Search Results"@
    }

    open spec fn headers_below(&self) -> Seq<Seq<char>> {
        headers_of(self.results@)
    }

    fn get_header_text(&self) -> (r: MdHeaderText) {
        MdHeaderText::new("Entity Search Results".to_owned(), header_texts(&self.results))
    }
}

impl MdUtil for NameserverSearchResults {
    open spec fn header(&self) -> Seq<char> {
        "Nameserver Search Results"@
    }

    open spec fn headers_below(&self) -> Seq<Seq<char>> {
        headers_of(self.results@)
    }

    fn get_header_text(&self) -> (r: MdHeaderText) {
        MdHeaderText::new("Nameserver Search Results".to_owned(), header_texts(&self.results))
    }
}

impl MdUtil for Rfc9083Error {
    open spec fn header(&self) -> Seq<char> {
        "RDAP Error"@
    }

    open spec fn headers_below(&self) -> Seq<Seq<char>> {
        Seq::empty()
    }

    fn get_header_text(&self) -> (r: MdHeaderText) {
        MdHeaderText::new("RDAP Error".to_owned(), Vec::new())
    }
}

impl MdUtil for Help {
    open spec fn header(&self) -> Seq<char> {
        "Server Help"@
    }

    open spec fn headers_below(&self) -> Seq<Seq<char>> {
        Seq::empty()
    }

    fn get_header_text(&self) -> (r: MdHeaderText) {
        MdHeaderText::new("Server Help".to_owned(), Vec::new())
    }
}

impl MdUtil for RdapResponse {
    open spec fn header(&self) -> Seq<char> {
        match self {
            RdapResponse::Entity(entity) => entity.header(),
            RdapResponse::Domain(domain) => domain.header(),
            RdapResponse::Nameserver(nameserver) => nameserver.header(),
            RdapResponse::Autnum(autnum) => autnum.header(),
            RdapResponse::Network(network) => network.header(),
            RdapResponse::DomainSearchResults(results) => results.header(),
            RdapResponse::EntitySearchResults(results) => results.header(),
            RdapResponse::NameserverSearchResults(results) => results.header(),
            RdapResponse::ErrorResponse(error) => error.header(),
            RdapResponse::Help(help) => help.header(),
        }
    }

    open spec fn headers_below(&self) -> Seq<Seq<char>> {
        match self {
            RdapResponse::Entity(entity) => entity.headers_below(),
            RdapResponse::Domain(domain) => domain.headers_below(),
            RdapResponse::Nameserver(nameserver) => nameserver.headers_below(),
            RdapResponse::Autnum(autnum) => autnum.headers_below(),
            RdapResponse::Network(network) => network.headers_below(),
            RdapResponse::DomainSearchResults(results) => results.headers_below(),
            RdapResponse::EntitySearchResults(results) => results.headers_below(),
            RdapResponse::NameserverSearchResults(results) => results.headers_below(),
            RdapResponse::ErrorResponse(error) => error.headers_below(),
            RdapResponse::Help(help) => help.headers_below(),
        }
    }

    fn get_header_text(&self) -> (r: MdHeaderText) {
        match &self {
            Self::Entity(entity) => entity.get_header_text(),
            Self::Domain(domain) => domain.get_header_text(),
            Self::Nameserver(nameserver) => nameserver.get_header_text(),
            Self::Autnum(autnum) => autnum.get_header_text(),
            Self::Network(network) => network.get_header_text(),
            Self::DomainSearchResults(results) => results.get_header_text(),
            Self::EntitySearchResults(results) => results.get_header_text(),
            Self::NameserverSearchResults(results) => results.get_header_text(),
            Self::ErrorResponse(error) => error.get_header_text(),
            Self::Help(help) => help.get_header_text(),
        }
    }
}

/// The Markdown of an object: its header at the heading level of `params`,
/// and the list of the findings on it whose classes `params` asks for.
pub open spec fn object_md<T: MdUtil + GetChecks>(object: &T, params: MdParams) -> Seq<char> {
    header_text(object.header(), params.heading_level as nat, *params.options) + checks_ul_text(
        object.findings(check_params_of(params)),
        params.check_types@,
        *params.options,
    )
}

fn object_to_md<T: MdUtil + GetChecks>(object: &T, params: MdParams) -> (r: String)
    ensures
        r@ == object_md(object, params),
{
    let header = object.get_header_text().to_string();
    let mut md = to_header(header.as_str(), params.heading_level, params.options);
    let checks = object.get_checks(CheckParams::from_md_no_parent(params));
    let list = checks_ul(&checks, params);
    md.append(list.as_str());
    md
}

impl ToMd for Entity {
    open spec fn md(&self, params: MdParams) -> Seq<char> {
        object_md(self, params)
    }

    fn to_md(&self, params: MdParams) -> (r: String) {
        object_to_md(self, params)
    }
}

impl ToMd for Domain {
    open spec fn md(&self, params: MdParams) -> Seq<char> {
        object_md(self, params)
    }

    fn to_md(&self, params: MdParams) -> (r: String) {
        object_to_md(self, params)
    }
}

impl ToMd for Nameserver {
    open spec fn md(&self, params: MdParams) -> Seq<char> {
        object_md(self, params)
    }

    fn to_md(&self, params: MdParams) -> (r: String) {
        object_to_md(self, params)
    }
}

impl ToMd for Autnum {
    open spec fn md(&self, params: MdParams) -> Seq<char> {
        object_md(self, params)
    }

    fn to_md(&self, params: MdParams) -> (r: String) {
        object_to_md(self, params)
    }
}

impl ToMd for Network {
    open spec fn md(&self, params: MdParams) -> Seq<char> {
        object_md(self, params)
    }

    fn to_md(&self, params: MdParams) -> (r: String) {
        object_to_md(self, params)
    }
}

impl ToMd for DomainSearchResults {
    open spec fn md(&self, params: MdParams) -> Seq<char> {
        object_md(self, params)
    }

    fn to_md(&self, params: MdParams) -> (r: String) {
        object_to_md(self, params)
    }
}

impl ToMd for EntitySearchResults {
    open spec fn md(&self, params: MdParams) -> Seq<char> {
        object_md(self, params)
    }

    fn to_md(&self, params: MdParams) -> (r: String) {
        object_to_md(self, params)
    }
}

impl ToMd for NameserverSearchResults {
    open spec fn md(&self, params: MdParams) -> Seq<char> {
        object_md(self, params)
    }

    fn to_md(&self, params: MdParams) -> (r: String) {
        object_to_md(self, params)
    }
}

impl ToMd for Rfc9083Error {
    open spec fn md(&self, params: MdParams) -> Seq<char> {
        object_md(self, params)
    }

    fn to_md(&self, params: MdParams) -> (r: String) {
        object_to_md(self, params)
    }
}

impl ToMd for Help {
    open spec fn md(&self, params: MdParams) -> Seq<char> {
        object_md(self, params)
    }

    fn to_md(&self, params: MdParams) -> (r: String) {
        object_to_md(self, params)
    }
}

/// The line of a member of the HTTP data, if the member is present.
pub open spec fn member_line(name: Seq<char>, value: Option<Seq<char>>) -> Seq<char> {
    match value {
        Some(v) => "* "@ + name + ": "@ + v + "\n"@,
        None => Seq::empty(),
    }
}

fn push_member(md: &mut String, name: &str, value: &Option<String>)
    ensures
        final(md)@ == old(md)@ + member_line(name@, value.deep_view()),
{
    match value {
        Some(v) => {
            md.append("* ");
            md.append(name);
            md.append(": ");
            md.append(v.as_str());
            md.append("\n");
            assert(md@ =~= old(md)@ + member_line(name@, value.deep_view()));
        },
        None => {
            assert(md@ =~= old(md)@ + member_line(name@, value.deep_view()));
        },
    }
}

impl ToMd for HttpData {
    /// A rule, the status code, and the URL, content type and location where
    /// they are known.
    open spec fn md(&self, params: MdParams) -> Seq<char> {
        HR@ + "* status: "@ + decimal(self.status_code as nat) + "\n"@ + member_line(
            "url"@,
            self.received_url.deep_view(),
        ) + member_line("content-type"@, self.content_type.deep_view()) + member_line(
            "location"@,
            self.location.deep_view(),
        ) + "\n"@
    }

    fn to_md(&self, params: MdParams) -> (r: String) {
        let mut md = HR.to_owned();
        md.append("* status: ");
        push_decimal(&mut md, self.status_code as u64);
        md.append("\n");
        push_member(&mut md, "url", &self.received_url);
        push_member(&mut md, "content-type", &self.content_type);
        push_member(&mut md, "location", &self.location);
        md.append("\n");
        md
    }
}

impl ToMd for RdapResponse {
    /// The Markdown of the HTTP data, followed by that of the response
    /// itself.
    open spec fn md(&self, params: MdParams) -> Seq<char> {
        params.http_data.md(params) + match self {
            RdapResponse::Entity(entity) => entity.md(params),
            RdapResponse::Domain(domain) => domain.md(params),
            RdapResponse::Nameserver(nameserver) => nameserver.md(params),
            RdapResponse::Autnum(autnum) => autnum.md(params),
            RdapResponse::Network(network) => network.md(params),
            RdapResponse::DomainSearchResults(results) => results.md(params),
            RdapResponse::EntitySearchResults(results) => results.md(params),
            RdapResponse::NameserverSearchResults(results) => results.md(params),
            RdapResponse::ErrorResponse(error) => error.md(params),
            RdapResponse::Help(help) => help.md(params),
        }
    }

    fn to_md(&self, params: MdParams) -> (r: String) {
        let mut md = String::new();
        let head = params.http_data.to_md(params);
        md.append(head.as_str());
        let variant_md = match &self {
            Self::Entity(entity) => entity.to_md(params),
            Self::Domain(domain) => domain.to_md(params),
            Self::Nameserver(nameserver) => nameserver.to_md(params),
            Self::Autnum(autnum) => autnum.to_md(params),
            Self::Network(network) => network.to_md(params),
            Self::DomainSearchResults(results) => results.to_md(params),
            Self::EntitySearchResults(results) => results.to_md(params),
            Self::NameserverSearchResults(results) => results.to_md(params),
            Self::ErrorResponse(error) => error.to_md(params),
            Self::Help(help) => help.to_md(params),
        };
        md.append(variant_md.as_str());
        assert(md@ =~= self.md(params));
        md
    }
}

} // verus!
