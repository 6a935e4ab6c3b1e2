//! Server names. webpki says which texts are DNS names.

use crate::codec::to_vec;
use vstd::prelude::*;
use vstd::string::StringSliceAdditionalSpecFns;

verus! {

/// `bytes` with the letters A to Z in lower case.
pub open spec fn lowercase(bytes: Seq<u8>) -> Seq<u8> {
    bytes.map_values(
        |b: u8|
            if 0x41 <= b <= 0x5a {
                (b + 0x20) as u8
            } else {
                b
            },
    )
}

/// Whether webpki takes `bytes` for a syntactically valid DNS name.
pub uninterp spec fn is_dns_name(bytes: Seq<u8>) -> bool;

/// `webpki::DNSNameRef::try_from_ascii` and then `to_owned`: the name in lower case, or
/// `None` if and only if it is not a valid one. A valid name has at most 253 bytes, and
/// stays valid in lower case.
#[verifier::external_body]
fn owned_dns_name(bytes: &[u8]) -> (r: Option<Vec<u8>>)
    ensures
        r is Some <==> is_dns_name(bytes@),
        r matches Some(name) ==> name@ == lowercase(bytes@) && is_dns_name(name@) && name@.len()
            <= 253,
{
    let name = webpki::DNSNameRef::try_from_ascii(bytes).ok()?.to_owned();
    Some(AsRef::<str>::as_ref(&name).as_bytes().to_vec())
}

/// A syntactically valid DNS name in lower case.
#[derive(Debug, PartialEq, Eq)]
pub struct DnsName {
    name: Vec<u8>,
}

impl View for DnsName {
    type V = Seq<u8>;

    closed spec fn view(&self) -> Seq<u8> {
        self.name@
    }
}

/// What every `DnsName` holds.
pub open spec fn is_owned_dns_name(name: Seq<u8>) -> bool {
    &&& is_dns_name(name)
    &&& lowercase(name) == name
    &&& name.len() <= 253
}

/// A name that has been put into lower case once stays as it is.
proof fn lemma_lowercase_once(bytes: Seq<u8>)
    ensures
        lowercase(lowercase(bytes)) == lowercase(bytes),
{
    assert(lowercase(lowercase(bytes)) =~= lowercase(bytes));
}

impl DnsName {
    #[verifier::type_invariant]
    spec fn valid(&self) -> bool {
        is_owned_dns_name(self.name@)
    }

    /// The name that `bytes` spell, or `None` where they spell none.
    pub fn try_from_ascii(bytes: &[u8]) -> (r: Option<DnsName>)
        ensures
            r is Some <==> is_dns_name(bytes@),
            r matches Some(name) ==> name@ == lowercase(bytes@) && is_owned_dns_name(name@),
    {
        proof {
            lemma_lowercase_once(bytes@);
        }
        match owned_dns_name(bytes) {
            Some(name) => Some(DnsName { name }),
            None => None,
        }
    }

    pub fn as_bytes(&self) -> (r: &[u8])
        ensures
            r@ == self@,
            is_owned_dns_name(r@),
    {
        proof {
            use_type_invariant(self);
        }
        self.name.as_slice()
    }

    /// A copy of the name.
    pub fn duplicate(&self) -> (r: DnsName)
        ensures
            r@ == self@,
    {
        proof {
            use_type_invariant(self);
        }
        DnsName { name: to_vec(self.name.as_slice()) }
    }
}

/// The error for a text that is not a DNS name.
#[derive(Clone, Copy, PartialEq, Eq, Structural, Debug)]
pub struct InvalidDnsNameError {}

/// The server that a client wants to talk to.
#[derive(Debug, PartialEq, Eq)]
pub enum ServerName {
    DnsName(DnsName),
}

impl View for ServerName {
    type V = Seq<u8>;

    open spec fn view(&self) -> Seq<u8> {
        match *self {
            ServerName::DnsName(name) => name@,
        }
    }
}

impl ServerName {
    /// A copy of the name.
    pub fn duplicate(&self) -> (r: ServerName)
        ensures
            r@ == self@,
    {
        match self {
            ServerName::DnsName(name) => ServerName::DnsName(name.duplicate()),
        }
    }

    pub fn as_bytes(&self) -> (r: &[u8])
        ensures
            r@ == self@,
            is_owned_dns_name(r@),
    {
        match self {
            ServerName::DnsName(name) => name.as_bytes(),
        }
    }
}

impl vstd::std_specs::convert::TryFromSpecImpl<&str> for ServerName {
    open spec fn obeys_try_from_spec() -> bool {
        false
    }

    open spec fn try_from_spec(text: &str) -> Result<ServerName, InvalidDnsNameError> {
        Err(InvalidDnsNameError {  })
    }
}

impl TryFrom<&str> for ServerName {
    type Error = InvalidDnsNameError;

    fn try_from(text: &str) -> (r: Result<ServerName, InvalidDnsNameError>)
        ensures
            r is Ok <==> is_dns_name(text.spec_bytes()),
            r matches Ok(name) ==> name@ == lowercase(text.spec_bytes()),
    {
        match DnsName::try_from_ascii(text.as_bytes()) {
            Some(name) => Ok(ServerName::DnsName(name)),
            None => Err(InvalidDnsNameError {  }),
        }
    }
}

} // verus!
