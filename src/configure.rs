use vstd::prelude::*;

use crate::credentials::{Credentials, CredentialsStore};
use crate::error::StoreError;
use crate::provider::{Provider, ProviderCli};
use vstd::std_specs::convert::FromSpec;

verus! {

/// A failure while asking the user.
#[derive(Debug, Clone, PartialEq, Eq)]
pub struct PromptError {
    pub message: String,
}

/// Asks the user what configuring a provider needs.
pub trait ConfigurePrompter {
    /// Whether to overwrite the credentials already stored for the provider.
    fn confirm_overwrite(&mut self, provider: Provider) -> Result<bool, PromptError>;

    /// Whether to make the provider the default one.
    fn confirm_set_default(&mut self, provider: Provider) -> Result<bool, PromptError>;

    /// New credentials for the provider.
    fn prompt_credentials(&mut self, provider: Provider) -> Result<Credentials, PromptError>;
}

/// Why configuring a provider stopped.
#[derive(Debug, Clone, PartialEq, Eq)]
pub enum ConfigureError {
    Store(StoreError),
    Prompt(PromptError),
}

/// What configuring a provider found and did.
#[derive(Debug, Clone, Copy, PartialEq, Eq, Structural)]
pub struct ConfigureOutcome {
    /// Credentials were stored for the provider before.
    pub had_credentials: bool,
    /// The user's answer on overwriting them, if asked.
    pub overwrite_answer: Option<bool>,
    /// New credentials were asked for and stored.
    pub credentials_saved: bool,
    /// The default provider before.
    pub previous_default: Option<Provider>,
    /// The user's answer on making the provider the default, if asked.
    pub default_answer: Option<bool>,
    /// The provider was made the default.
    pub default_set: bool,
}

impl ConfigureOutcome {
    /// The user is asked before stored credentials are replaced, and only then; new
    /// credentials are stored where there were none or the user agreed. The user is asked
    /// before another provider's default is replaced, and only then; the provider becomes the
    /// default where there was none or the user agreed.
    pub open spec fn follows_rules(&self, provider: Provider) -> bool {
        &&& self.overwrite_answer is Some <==> self.had_credentials
        &&& self.credentials_saved == (!self.had_credentials || self.overwrite_answer == Some(true))
        &&& self.default_answer is Some <==> (self.previous_default matches Some(d) && d != provider)
        &&& self.default_set == (self.previous_default is None || self.default_answer == Some(true))
    }
}

/// Configures credentials and the default provider through a store and a prompter.
pub struct ConfigureHandler<S, P> where S: CredentialsStore, P: ConfigurePrompter {
    store: S,
    prompter: P,
}

impl<S, P> ConfigureHandler<S, P> where S: CredentialsStore, P: ConfigurePrompter {
    pub fn new(store: S, prompter: P) -> Self {
        ConfigureHandler { store, prompter }
    }

    /// Stores new credentials for the provider, asking first if some are stored, then makes
    /// it the default provider, asking first if another one is.
    pub fn run(&mut self, provider_cli: ProviderCli) -> (r: Result<ConfigureOutcome, ConfigureError>)
        ensures
            r matches Ok(outcome) ==> outcome.follows_rules(Provider::from_spec(provider_cli)),
    {
        let provider: Provider = Provider::from(provider_cli);
        let had_credentials = match self.store.get_credentials(provider) {
            Ok(existing) => existing.is_some(),
            Err(e) => return Err(ConfigureError::Store(e)),
        };
        let overwrite_answer = if had_credentials {
            match self.prompter.confirm_overwrite(provider) {
                Ok(answer) => Some(answer),
                Err(e) => return Err(ConfigureError::Prompt(e)),
            }
        } else {
            None
        };
        let overwrite = match overwrite_answer {
            Some(answer) => answer,
            None => true,
        };
        if overwrite {
            let credentials = match self.prompter.prompt_credentials(provider) {
                Ok(c) => c,
                Err(e) => return Err(ConfigureError::Prompt(e)),
            };
            if let Err(e) = self.store.set_credentials(provider, &credentials) {
                return Err(ConfigureError::Store(e));
            }
        }
        let previous_default = match self.store.get_default_provider() {
            Ok(d) => d,
            Err(e) => return Err(ConfigureError::Store(e)),
        };
        let default_answer = match previous_default {
            Some(current) if current != provider => match self.prompter.confirm_set_default(provider) {
                Ok(answer) => Some(answer),
                Err(e) => return Err(ConfigureError::Prompt(e)),
            },
            _ => None,
        };
        let default_set = match previous_default {
            None => true,
            Some(_) => default_answer == Some(true),
        };
        if default_set {
            if let Err(e) = self.store.set_default_provider(provider) {
                return Err(ConfigureError::Store(e));
            }
        }
        Ok(ConfigureOutcome {
            had_credentials,
            overwrite_answer,
            credentials_saved: overwrite,
            previous_default,
            default_answer,
            default_set,
        })
    }
}

} // verus!
