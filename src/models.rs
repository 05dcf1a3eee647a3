//! The batch request: an ordered list of domain specifications.
use vstd::prelude::*;

verus! {

/// One reverse-proxied domain.
#[derive(Debug)]
pub struct DomainConfig {
    pub domain: String,
    pub port: u16,
    pub ssl: bool,
    pub email: Option<String>,
    pub host: String,
    pub max_body_size: String,
}

/// A batch of domains, applied strictly in order.
#[derive(Debug)]
pub struct Config {
    pub domains: Vec<DomainConfig>,
    pub auto_reload: bool,
}

/// Why a batch is refused before anything is touched.
#[derive(Debug, PartialEq, Eq)]
pub enum BatchError {
    /// The domain at `index` asks for TLS but names no contact email.
    MissingEmail { index: usize },
}

/// A domain asks for TLS without the email that certificate issuance needs.
pub open spec fn lacks_email(d: DomainConfig) -> bool {
    d.ssl && d.email is None
}

/// Every domain of the batch that asks for TLS names an email.
pub open spec fn batch_ok(domains: Seq<DomainConfig>) -> bool {
    forall|i: int| 0 <= i < domains.len() ==> !lacks_email(#[trigger] domains[i])
}

/// The body-size limit used when a domain names none.
pub fn default_max_body_size() -> (r: String)
    ensures
        r@ == "20M"@,
{
    "20M".to_owned()
}

/// The backend host used when a domain names none.
pub fn default_host() -> (r: String)
    ensures
        r@ == "localhost"@,
{
    "localhost".to_owned()
}

impl Config {
    /// Accepts the batch, or names the first domain that asks for TLS without an email.
    pub fn check(&self) -> (r: Result<(), BatchError>)
        ensures
            r is Ok <==> batch_ok(self.domains@),
            r matches Err(BatchError::MissingEmail { index }) ==> index < self.domains.len()
                && lacks_email(self.domains@[index as int]) && forall|j: int|
                0 <= j < index ==> !lacks_email(#[trigger] self.domains@[j]),
    {
        let mut i: usize = 0;
        while i < self.domains.len()
            invariant
                i <= self.domains.len(),
                forall|j: int| 0 <= j < i ==> !lacks_email(#[trigger] self.domains@[j]),
            decreases self.domains.len() - i,
        {
            let d = &self.domains[i];
            if d.ssl && d.email.is_none() {
                return Err(BatchError::MissingEmail { index: i });
            }
            i = i + 1;
        }
        Ok(())
    }
}

} // verus!
