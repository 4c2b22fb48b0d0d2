//! The form that adds an instance or updates the transport settings of one.
use vstd::prelude::*;

use crate::components::BooleanState;
use crate::config::{protocol_of, Config, Gitlab};

verus! {

/// The fields of the instance form.
#[derive(Debug)]
pub struct InstanceForm {
    /// `https://` or `http://`.
    pub protocol: String,
    pub host: String,
    /// The access token; empty when it is left as it is.
    pub auth_key: String,
    pub cert_insecure: BooleanState,
    /// Whether an existing instance is being updated.
    pub is_editing: BooleanState,
}

/// Why the form was refused.
#[derive(Debug, Clone, Copy, PartialEq, Eq, Structural)]
pub enum FormError {
    /// A new instance needs both a host and a token.
    MissingFields,
}

impl FormError {
    /// The message telling the user.
    pub fn message(&self) -> (r: String)
        ensures
            r@ == "Please fill both fields."@,
    {
        String::from_str("Please fill both fields.")
    }
}

/// What a submitted form changes: the new configuration, whether the token
/// is to be stored for the host first, and whether the host's cached client
/// is to be dropped.
#[derive(Debug)]
pub struct InstanceChange {
    pub config: Config,
    pub store_token: bool,
    pub invalidate: bool,
}

impl InstanceForm {
    pub open spec fn is_blank(&self) -> bool {
        &&& self.host@.len() == 0
        &&& self.auth_key@.len() == 0
        &&& !self.cert_insecure.value()
        &&& !self.is_editing.value()
    }

    /// An empty form, on the encrypted transport.
    pub fn new() -> (r: Self)
        ensures
            r.is_blank(),
            r.protocol@ == "https://"@,
    {
        InstanceForm {
            protocol: String::from_str("https://"),
            host: String::new(),
            auth_key: String::new(),
            cert_insecure: BooleanState::new(false),
            is_editing: BooleanState::new(false),
        }
    }

    /// Empties the form; the transport choice stays.
    pub fn reset(&mut self)
        ensures
            final(self).is_blank(),
            final(self).protocol == old(self).protocol,
    {
        self.host = String::new();
        self.auth_key = String::new();
        self.cert_insecure.set(false);
        self.is_editing.set(false);
    }

    /// Fills the form to update `gitlab`; the token is left empty.
    pub fn prepare_edit(&mut self, gitlab: &Gitlab)
        ensures
            final(self).protocol@ == protocol_of(gitlab.insecure),
            final(self).host@ == gitlab.host@,
            final(self).auth_key@.len() == 0,
            final(self).cert_insecure.value() == gitlab.cert_insecure,
            final(self).is_editing.value(),
    {
        self.reset();
        self.cert_insecure.set(gitlab.cert_insecure);
        self.protocol = gitlab.protocol();
        self.host = gitlab.host.clone();
        self.is_editing.set(true);
    }

    /// Whether the form is refused: a new instance needs both fields.
    pub open spec fn refused(&self) -> bool {
        !self.is_editing.value() && (self.host@.len() == 0 || self.auth_key@.len() == 0)
    }

    /// Applies the submitted form to `config`. Updating changes the transport
    /// settings of the first instance with the host and drops its cached
    /// client; adding appends a new instance with no tracked project.
    pub fn submit(&self, config: Config) -> (r: Result<InstanceChange, FormError>)
        ensures
            self.refused() <==> r is Err,
            r is Err ==> r->Err_0 == FormError::MissingFields,
            r is Ok ==> ({
                let ch = r->Ok_0;
                let insecure = self.protocol@ == "http://"@;
                &&& ch.store_token == (self.auth_key@.len() > 0)
                &&& ch.config.refresh_every == config.refresh_every
                &&& ch.config.show_merge_request == config.show_merge_request
                &&& ch.config.theme_mode == config.theme_mode
                &&& self.is_editing.value() ==> (if exists|i: int|
                    0 <= i < config.gitlabs@.len() && config.gitlabs@[i].host@ == self.host@ {
                    ch.invalidate && exists|i: int|
                        0 <= i < config.gitlabs@.len() && config.gitlabs@[i].host@ == self.host@
                            && (forall|j: int|
                            0 <= j < i ==> config.gitlabs@[j].host@ != self.host@)
                            && ch.config.gitlabs@ == config.gitlabs@.update(
                            i,
                            Gitlab {
                                insecure,
                                cert_insecure: self.cert_insecure.value(),
                                ..config.gitlabs@[i]
                            },
                        )
                } else {
                    !ch.invalidate && ch.config.gitlabs@ == config.gitlabs@
                })
                &&& !self.is_editing.value() ==> {
                    &&& !ch.invalidate
                    &&& ch.config.gitlabs@.len() == config.gitlabs@.len() + 1
                    &&& ch.config.gitlabs@.take(config.gitlabs@.len() as int) == config.gitlabs@
                    &&& ch.config.gitlabs@.last().host@ == self.host@
                    &&& ch.config.gitlabs@.last().insecure == insecure
                    &&& ch.config.gitlabs@.last().cert_insecure == self.cert_insecure.value()
                    &&& ch.config.gitlabs@.last().project_ids@.len() == 0
                }
            }),
    {
        let is_update = self.is_editing.get();
        if !is_update && (self.host.as_str().is_empty() || self.auth_key.as_str().is_empty()) {
            return Err(FormError::MissingFields);
        }
        let store_token = !self.auth_key.as_str().is_empty();
        let insecure = self.protocol == String::from_str("http://");
        let cert_insecure = self.cert_insecure.get();
        let mut config = config;
        let ghost before = config.gitlabs@;
        if is_update {
            match config.find(&self.host) {
                Some(i) => {
                    let mut gitlab = config.gitlabs.remove(i);
                    gitlab.insecure = insecure;
                    gitlab.cert_insecure = cert_insecure;
                    config.gitlabs.insert(i, gitlab);
                    assert(config.gitlabs@ =~= before.update(
                        i as int,
                        Gitlab { insecure, cert_insecure, ..before[i as int] },
                    ));
                    Ok(InstanceChange { config, store_token, invalidate: true })
                },
                None => Ok(InstanceChange { config, store_token, invalidate: false }),
            }
        } else {
            let gitlab = Gitlab::empty(self.host.clone(), insecure, cert_insecure);
            config.gitlabs.push(gitlab);
            assert(config.gitlabs@.take(before.len() as int) =~= before);
            Ok(InstanceChange { config, store_token, invalidate: false })
        }
    }
}

} // verus!
