//! Rewriting of the host name of a request into the name that is resolved.

use vstd::prelude::*;
use vstd::string::*;
use crate::text::str_eq;

verus! {

/// The gateway suffix under which the gateway is reached by default.
pub const GATEWAY_SUFFIX: &'static str = ".eth-gw.uk.to";

/// The domain suffix that replaces the gateway suffix by default.
pub const DOMAIN_SUFFIX: &'static str = ".eth";

/// Whether `text` ends with `suffix`.
pub open spec fn ends_with(text: Seq<char>, suffix: Seq<char>) -> bool {
    suffix.len() <= text.len() && text.subrange(text.len() - suffix.len(), text.len() as int)
        == suffix
}

/// `host` with the gateway suffix at its end replaced by the domain suffix.
/// A host that does not end with the gateway suffix stays as it is.
pub open spec fn rewritten(host: Seq<char>, gateway: Seq<char>, domain: Seq<char>) -> Seq<char> {
    if ends_with(host, gateway) {
        host.subrange(0, host.len() - gateway.len()) + domain
    } else {
        host
    }
}

/// The rule by which host names are rewritten: a gateway suffix that is
/// stripped and a domain suffix that takes its place.
#[derive(Debug, Clone, PartialEq, Eq)]
pub struct SuffixRewrite {
    pub gateway_suffix: String,
    pub domain_suffix: String,
}

impl SuffixRewrite {
    /// The rule that replaces `.eth-gw.uk.to` by `.eth`.
    pub fn standard() -> (rule: SuffixRewrite)
        ensures
            rule.gateway_suffix@ == GATEWAY_SUFFIX@,
            rule.domain_suffix@ == DOMAIN_SUFFIX@,
    {
        SuffixRewrite {
            gateway_suffix: String::from_str(GATEWAY_SUFFIX),
            domain_suffix: String::from_str(DOMAIN_SUFFIX),
        }
    }

    /// Rewrites a host name by this rule.
    pub fn normalize(&self, hostname: &str) -> (name: String)
        ensures
            name@ == rewritten(hostname@, self.gateway_suffix@, self.domain_suffix@),
    {
        let host_len = hostname.unicode_len();
        let suffix_len = self.gateway_suffix.as_str().unicode_len();
        if suffix_len > host_len {
            return String::from_str(hostname);
        }
        let stem_len = host_len - suffix_len;
        let tail = hostname.substring_char(stem_len, host_len);
        if str_eq(tail, self.gateway_suffix.as_str()) {
            let mut name = String::from_str(hostname.substring_char(0, stem_len));
            name.append(self.domain_suffix.as_str());
            name
        } else {
            String::from_str(hostname)
        }
    }
}

} // verus!
