//! The provider configuration model: which backends exist, and the
//! credential data each one was configured with. The credential set is read
//! from the environment at the process edge; a provider without a
//! credential is simply not registered.
use vstd::prelude::*;

verus! {

/// A provider's credential and optional scope. The credential is kept
/// redacted at the process edge; inside the gateway it is the plain value
/// that the exchange endpoint needs.
#[derive(Clone, Debug, PartialEq, Eq)]
pub struct ModelData {
    pub token: String,
    pub scope: Option<String>,
}

/// One known backend, with its configuration once one is found.
#[derive(Clone, Debug, PartialEq, Eq)]
pub enum Model {
    GigaChat(Option<ModelData>),
    DeepSeek(Option<ModelData>),
}

impl Model {
    /// The provider's lower-case identifier.
    pub fn to_string(&self) -> (r: String)
        ensures
            self matches Model::GigaChat(_) ==> r@ == "gigachat"@,
            self matches Model::DeepSeek(_) ==> r@ == "deepseek"@,
    {
        match self {
            Model::GigaChat(_) => "gigachat".to_owned(),
            Model::DeepSeek(_) => "deepseek".to_owned(),
        }
    }

    /// Installs a credential, keeping the provider kind.
    pub fn set_data(&mut self, data: ModelData)
        ensures
            old(self) matches Model::GigaChat(_) ==> *final(self) == Model::GigaChat(
                Some(data),
            ),
            old(self) matches Model::DeepSeek(_) ==> *final(self) == Model::DeepSeek(
                Some(data),
            ),
    {
        match self {
            Model::GigaChat(_) => {
                *self = Model::GigaChat(Some(data));
            },
            Model::DeepSeek(_) => {
                *self = Model::DeepSeek(Some(data));
            },
        }
    }

    /// Whether a credential was configured: only then is the provider
    /// registered.
    pub fn configured(&self) -> (b: bool)
        ensures
            b == (self matches Model::GigaChat(Some(_)) || self matches Model::DeepSeek(
                Some(_),
            )),
    {
        match self {
            Model::GigaChat(d) => d.is_some(),
            Model::DeepSeek(d) => d.is_some(),
        }
    }
}

/// The backends the gateway knows, before any credential is read.
pub fn initial_models() -> (r: Vec<Model>)
    ensures
        r@.len() == 2,
        r@[0] == Model::GigaChat(None::<ModelData>),
        r@[1] == Model::DeepSeek(None::<ModelData>),
{
    let mut v: Vec<Model> = Vec::new();
    v.push(Model::GigaChat(None));
    v.push(Model::DeepSeek(None));
    v
}

} // verus!
