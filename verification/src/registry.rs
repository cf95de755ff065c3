//! The ordered provider registry.
//!
//! Providers are configured once at startup; their order defines failover
//! priority, and the first-registered provider supplies the default model.

use vstd::prelude::*;
use vstd::string::StringExecFns;

verus! {

/// A list of model identifiers joined with commas, in order, with no
/// trailing separator.
pub open spec fn csv_of(models: Seq<Seq<char>>) -> Seq<char>
    decreases models.len(),
{
    if models.len() == 0 {
        Seq::empty()
    } else if models.len() == 1 {
        models[0]
    } else {
        csv_of(models.drop_last()) + ","@ + models.last()
    }
}

/// One configured upstream completions endpoint with its own model
/// identifier and credential.
#[derive(Debug, PartialEq, Eq)]
pub struct Provider {
    pub endpoint_url: String,
    pub model: String,
    pub credential: String,
}

/// The ordered, read-only list of providers. Uniqueness is not required;
/// the order is the failover order.
#[derive(Debug, PartialEq, Eq)]
pub struct ProviderRegistry {
    pub providers: Vec<Provider>,
}

impl ProviderRegistry {
    /// The model identifiers the registry knows, in registration order.
    pub open spec fn models(self) -> Seq<Seq<char>> {
        self.providers@.map(|i: int, p: Provider| p.model@)
    }

    pub fn new(providers: Vec<Provider>) -> (r: ProviderRegistry)
        ensures
            r.providers == providers,
    {
        ProviderRegistry { providers }
    }

    pub fn len(&self) -> (r: usize)
        ensures
            r == self.providers@.len(),
    {
        self.providers.len()
    }

    pub fn get(&self, i: usize) -> (r: &Provider)
        requires
            i < self.providers@.len(),
        ensures
            *r == self.providers@[i as int],
    {
        &self.providers[i]
    }

    /// Whether some configured provider carries this model identifier.
    pub fn knows_model(&self, m: &String) -> (r: bool)
        ensures
            r == self.models().contains(m@),
    {
        let n = self.providers.len();
        let mut i: usize = 0;
        while i < n
            invariant
                0 <= i <= n,
                n == self.providers@.len(),
                forall|j: int| 0 <= j < i ==> self.models()[j] != m@,
            decreases n - i,
        {
            if self.providers[i].model == *m {
                assert(self.models()[i as int] == m@);
                return true;
            }
            i += 1;
        }
        assert forall|j: int| 0 <= j < self.models().len() implies self.models()[j] != m@ by {}
        false
    }

    /// The comma-separated list of the configured models, in registration
    /// order — what the model-listing endpoint shows.
    pub fn models_csv(&self) -> (r: String)
        ensures
            r@ == csv_of(self.models()),
    {
        let mut out = String::new();
        let n = self.providers.len();
        let mut i: usize = 0;
        while i < n
            invariant
                0 <= i <= n,
                n == self.providers@.len(),
                out@ == csv_of(self.models().take(i as int)),
            decreases n - i,
        {
            let ghost ms = self.models();
            let ghost before = out@;
            if i > 0 {
                out.append(",");
            }
            out.append(self.providers[i].model.as_str());
            proof {
                assert(ms[i as int] == self.providers@[i as int].model@);
                assert(ms.take(i + 1).drop_last() =~= ms.take(i as int));
                assert(ms.take(i + 1).last() == ms[i as int]);
                if i == 0 {
                    assert(out@ =~= csv_of(ms.take(1)));
                } else {
                    assert(out@ =~= csv_of(ms.take(i as int)) + ","@ + ms[i as int]);
                }
            }
            i += 1;
        }
        proof {
            assert(self.models().take(n as int) =~= self.models());
        }
        out
    }

    /// The default model: the first-registered provider's.
    pub fn default_model(&self) -> (r: String)
        requires
            self.providers@.len() > 0,
        ensures
            r == self.providers@[0].model,
    {
        self.providers[0].model.clone()
    }
}

} // verus!
