//! Renders responses in the layout of gTLD Whois.

use crate::check::RdapStructure;
use crate::response::{Common, RdapResponse};
use vstd::prelude::*;

verus! {

/// What a rendering works with.
pub struct GtldParams<'a> {
    pub root: &'a RdapResponse,
    pub parent_type: RdapStructure,
    /// The label that the lines of the structure at hand begin with.
    pub label: String,
}

/// What is rendered in the layout of gTLD Whois.
pub trait ToGtldWhois {
    /// The text of the value.
    spec fn gtld_whois(&self, params: &GtldParams) -> Seq<char>;

    fn to_gtld_whois(&self, params: &mut GtldParams) -> (r: String)
        ensures
            r@ == self.gtld_whois(old(params)),
    ;
}

impl ToGtldWhois for Common {
    /// The envelope has no lines of its own.
    open spec fn gtld_whois(&self, params: &GtldParams) -> Seq<char> {
        Seq::empty()
    }

    fn to_gtld_whois(&self, _params: &mut GtldParams) -> (r: String)
        ensures
            *final(_params) == *old(_params),
    {
        String::new()
    }
}

} // verus!
