//! The embedding side of the adapter: the closed set of models, the request
//! that is sent, and what is made of the response.

use vstd::prelude::*;
use vstd::string::StringExecFns;
use crate::client::{ApiResponse, Client, Outcome, UNRECOGNISED_RESPONSE};
use crate::embeddings::{Embedding, EmbeddingError};
use crate::text::{decimal, decimal_text, str_eq};
use crate::vecs::{clone_texts, reversed};

verus! {

/// The most documents that one request may carry. Nothing here enforces it:
/// whoever builds the batches keeps to it.
pub const MAX_DOCUMENTS: usize = 96;

/// The embedding models that the provider offers.
#[derive(Debug, Clone, Copy, PartialEq, Eq, Structural)]
pub enum CohereEmbeddingModel {
    EmbedEnglishV3,
    EmbedEnglishLightV3,
    EmbedMultilingualV3,
    EmbedMultilingualLightV3,
    EmbedEnglishV2,
    EmbedEnglishLightV2,
    EmbedMultilingualV2,
}

impl CohereEmbeddingModel {
    /// The provider's name for the model.
    pub open spec fn name(self) -> Seq<char> {
        match self {
            CohereEmbeddingModel::EmbedEnglishV3 => "embed-english-v3.0"@,
            CohereEmbeddingModel::EmbedEnglishLightV3 => "embed-english-light-v3.0"@,
            CohereEmbeddingModel::EmbedMultilingualV3 => "embed-multilingual-v3.0"@,
            CohereEmbeddingModel::EmbedMultilingualLightV3 => "embed-multilingual-light-v3.0"@,
            CohereEmbeddingModel::EmbedEnglishV2 => "embed-english-v2.0"@,
            CohereEmbeddingModel::EmbedEnglishLightV2 => "embed-english-light-v2.0"@,
            CohereEmbeddingModel::EmbedMultilingualV2 => "embed-multilingual-v2.0"@,
        }
    }

    /// The model that a text names, if it names one.
    pub open spec fn named(s: Seq<char>) -> Option<CohereEmbeddingModel> {
        if s == "embed-english-v3.0"@ {
            Some(CohereEmbeddingModel::EmbedEnglishV3)
        } else if s == "embed-english-light-v3.0"@ {
            Some(CohereEmbeddingModel::EmbedEnglishLightV3)
        } else if s == "embed-multilingual-v3.0"@ {
            Some(CohereEmbeddingModel::EmbedMultilingualV3)
        } else if s == "embed-multilingual-light-v3.0"@ {
            Some(CohereEmbeddingModel::EmbedMultilingualLightV3)
        } else if s == "embed-english-v2.0"@ {
            Some(CohereEmbeddingModel::EmbedEnglishV2)
        } else if s == "embed-english-light-v2.0"@ {
            Some(CohereEmbeddingModel::EmbedEnglishLightV2)
        } else if s == "embed-multilingual-v2.0"@ {
            Some(CohereEmbeddingModel::EmbedMultilingualV2)
        } else {
            None
        }
    }

    /// The length of the vectors that the model produces.
    pub open spec fn dimensions(self) -> nat {
        match self {
            CohereEmbeddingModel::EmbedEnglishV3 => 1024,
            CohereEmbeddingModel::EmbedEnglishLightV3 => 384,
            CohereEmbeddingModel::EmbedMultilingualV3 => 1024,
            CohereEmbeddingModel::EmbedMultilingualLightV3 => 384,
            CohereEmbeddingModel::EmbedEnglishV2 => 4096,
            CohereEmbeddingModel::EmbedEnglishLightV2 => 1024,
            CohereEmbeddingModel::EmbedMultilingualV2 => 768,
        }
    }

    /// Reads a model's name. Any other text is a bad model, and comes back in
    /// the error.
    pub fn from_str(s: &str) -> (r: Result<CohereEmbeddingModel, EmbeddingError>)
        ensures
            match r {
                Ok(m) => CohereEmbeddingModel::named(s@) == Some(m),
                Err(EmbeddingError::BadModel(t)) => CohereEmbeddingModel::named(s@) is None && t@ == s@,
                Err(_) => false,
            },
    {
        if str_eq(s, "embed-english-v3.0") {
            Ok(CohereEmbeddingModel::EmbedEnglishV3)
        } else if str_eq(s, "embed-english-light-v3.0") {
            Ok(CohereEmbeddingModel::EmbedEnglishLightV3)
        } else if str_eq(s, "embed-multilingual-v3.0") {
            Ok(CohereEmbeddingModel::EmbedMultilingualV3)
        } else if str_eq(s, "embed-multilingual-light-v3.0") {
            Ok(CohereEmbeddingModel::EmbedMultilingualLightV3)
        } else if str_eq(s, "embed-english-v2.0") {
            Ok(CohereEmbeddingModel::EmbedEnglishV2)
        } else if str_eq(s, "embed-english-light-v2.0") {
            Ok(CohereEmbeddingModel::EmbedEnglishLightV2)
        } else if str_eq(s, "embed-multilingual-v2.0") {
            Ok(CohereEmbeddingModel::EmbedMultilingualV2)
        } else {
            Err(EmbeddingError::BadModel(s.to_owned()))
        }
    }

    /// Writes the model's name.
    pub fn to_string(&self) -> (r: String)
        ensures
            r@ == self.name(),
    {
        match self {
            CohereEmbeddingModel::EmbedEnglishV3 => "embed-english-v3.0".to_owned(),
            CohereEmbeddingModel::EmbedEnglishLightV3 => "embed-english-light-v3.0".to_owned(),
            CohereEmbeddingModel::EmbedMultilingualV3 => "embed-multilingual-v3.0".to_owned(),
            CohereEmbeddingModel::EmbedMultilingualLightV3 => "embed-multilingual-light-v3.0".to_owned(),
            CohereEmbeddingModel::EmbedEnglishV2 => "embed-english-v2.0".to_owned(),
            CohereEmbeddingModel::EmbedEnglishLightV2 => "embed-english-light-v2.0".to_owned(),
            CohereEmbeddingModel::EmbedMultilingualV2 => "embed-multilingual-v2.0".to_owned(),
        }
    }

    /// The length of the vectors that the model produces.
    pub fn ndims(&self) -> (r: usize)
        ensures
            r == self.dimensions(),
    {
        match self {
            CohereEmbeddingModel::EmbedEnglishV3 => 1024,
            CohereEmbeddingModel::EmbedEnglishLightV3 => 384,
            CohereEmbeddingModel::EmbedMultilingualV3 => 1024,
            CohereEmbeddingModel::EmbedMultilingualLightV3 => 384,
            CohereEmbeddingModel::EmbedEnglishV2 => 4096,
            CohereEmbeddingModel::EmbedEnglishLightV2 => 1024,
            CohereEmbeddingModel::EmbedMultilingualV2 => 768,
        }
    }
}

/// The seven names differ from one another.
proof fn lemma_names_differ()
    ensures
        forall|a: CohereEmbeddingModel, b: CohereEmbeddingModel| a != b ==> #[trigger] a.name() != #[trigger] b.name(),
{
    reveal_strlit("embed-english-v3.0");
    reveal_strlit("embed-english-light-v3.0");
    reveal_strlit("embed-multilingual-v3.0");
    reveal_strlit("embed-multilingual-light-v3.0");
    reveal_strlit("embed-english-v2.0");
    reveal_strlit("embed-english-light-v2.0");
    reveal_strlit("embed-multilingual-v2.0");
    assert("embed-english-v3.0"@[15] != "embed-english-v2.0"@[15]);
    assert("embed-english-light-v3.0"@[21] != "embed-english-light-v2.0"@[21]);
    assert("embed-multilingual-v3.0"@[20] != "embed-multilingual-v2.0"@[20]);
}

/// Reading the name that was written for a model gives that model back.
pub proof fn lemma_name_round_trip(model: CohereEmbeddingModel)
    ensures
        CohereEmbeddingModel::named(model.name()) == Some(model),
{
    lemma_names_differ();
    assert(CohereEmbeddingModel::EmbedEnglishV3.name() != model.name() || model
        == CohereEmbeddingModel::EmbedEnglishV3);
    assert(CohereEmbeddingModel::EmbedEnglishLightV3.name() != model.name() || model
        == CohereEmbeddingModel::EmbedEnglishLightV3);
    assert(CohereEmbeddingModel::EmbedMultilingualV3.name() != model.name() || model
        == CohereEmbeddingModel::EmbedMultilingualV3);
    assert(CohereEmbeddingModel::EmbedMultilingualLightV3.name() != model.name() || model
        == CohereEmbeddingModel::EmbedMultilingualLightV3);
    assert(CohereEmbeddingModel::EmbedEnglishV2.name() != model.name() || model
        == CohereEmbeddingModel::EmbedEnglishV2);
    assert(CohereEmbeddingModel::EmbedEnglishLightV2.name() != model.name() || model
        == CohereEmbeddingModel::EmbedEnglishLightV2);
}

/// A text that is read as a model is that model's name: no model has a
/// second spelling.
pub proof fn lemma_named_is_name(s: Seq<char>, model: CohereEmbeddingModel)
    requires
        CohereEmbeddingModel::named(s) == Some(model),
    ensures
        model.name() == s,
{
}

/// The provider's record of what a request was billed.
#[derive(Debug)]
pub struct BilledUnits {
    pub input_tokens: u32,
    pub output_tokens: u32,
    pub search_units: u32,
    pub classifications: u32,
}

/// The version of the API that answered.
#[derive(Debug)]
pub struct ApiVersion {
    pub version: String,
    pub is_deprecated: Option<bool>,
    pub is_experimental: Option<bool>,
}

/// What the provider says about a response.
#[derive(Debug)]
pub struct Meta {
    pub api_version: ApiVersion,
    pub billed_units: BilledUnits,
    pub warnings: Vec<String>,
}

/// The payload of an embedding response. `V` is the type of one vector.
#[derive(Debug)]
pub struct EmbeddingResponse<V> {
    pub response_type: Option<String>,
    pub id: String,
    pub embeddings: Vec<V>,
    pub texts: Vec<String>,
    pub meta: Option<Meta>,
}

/// The body of an embedding request.
#[derive(Debug)]
pub struct EmbedRequest {
    pub model: String,
    pub texts: Vec<String>,
    pub input_type: String,
}

/// An embedding model of one client, with the input type that it tags its
/// requests with.
#[derive(Debug, Clone)]
pub struct EmbeddingModel {
    pub client: Client,
    pub model: CohereEmbeddingModel,
    pub input_type: String,
}

/// The sentence that reports `got` embeddings where `expected` were due.
pub open spec fn mismatch_text(expected: nat, got: nat) -> Seq<char> {
    "Expected "@ + decimal_text(expected) + " embeddings, got "@ + decimal_text(got)
}

/// Pairs each document with the embedding at the same place. Where the two
/// counts differ nothing is paired: the error holds both counts.
pub fn pair_embeddings<V>(documents: Vec<String>, embeddings: Vec<V>) -> (r: Result<
    Vec<Embedding<V>>,
    EmbeddingError,
>)
    ensures
        r is Ok <==> embeddings@.len() == documents@.len(),
        match r {
            Ok(pairs) => {
                &&& pairs@.len() == documents@.len()
                &&& forall|i: int| 0 <= i < pairs@.len() ==> (#[trigger] pairs@[i]).document == documents@[i]
                    && pairs@[i].vec == embeddings@[i]
            },
            Err(EmbeddingError::DocumentError(text)) => text@ == mismatch_text(documents@.len(), embeddings@.len()),
            Err(_) => false,
        },
{
    if embeddings.len() != documents.len() {
        let mut text = "Expected ".to_owned();
        text.append(decimal(documents.len()).as_str());
        text.append(" embeddings, got ");
        text.append(decimal(embeddings.len()).as_str());
        return Err(EmbeddingError::DocumentError(text));
    }
    let ghost n = documents@.len() as int;
    let mut texts = reversed(documents);
    let mut vectors = reversed(embeddings);
    let mut pairs: Vec<Embedding<V>> = Vec::new();
    while texts.len() > 0
        invariant
            texts@.len() == vectors@.len(),
            texts@.len() + pairs@.len() == n,
            n == documents@.len() == embeddings@.len(),
            forall|j: int| 0 <= j < texts@.len() ==> texts@[j] == documents@[n - 1 - j],
            forall|j: int| 0 <= j < vectors@.len() ==> vectors@[j] == embeddings@[n - 1 - j],
            forall|j: int| 0 <= j < pairs@.len() ==> (#[trigger] pairs@[j]).document == documents@[j] && pairs@[j].vec
                == embeddings@[j],
        decreases texts.len(),
    {
        let document = texts.pop().unwrap();
        let vec = vectors.pop().unwrap();
        pairs.push(Embedding { document, vec });
    }
    Ok(pairs)
}

impl Client {
    /// An embedding model of this client.
    pub fn embedding_model(&self, model: &CohereEmbeddingModel, input_type: &str) -> (r: EmbeddingModel)
        ensures
            r.client == *self,
            r.model == *model,
            r.input_type@ == input_type@,
    {
        EmbeddingModel::new(self.duplicate(), model, input_type)
    }
}

impl EmbeddingModel {
    /// An embedding model of `client`.
    pub fn new(client: Client, model: &CohereEmbeddingModel, input_type: &str) -> (r: EmbeddingModel)
        ensures
            r.client == client,
            r.model == *model,
            r.input_type@ == input_type@,
    {
        EmbeddingModel { client, model: *model, input_type: input_type.to_owned() }
    }

    /// The length of the vectors that the model produces.
    pub fn ndims(&self) -> (r: usize)
        ensures
            r == self.model.dimensions(),
    {
        self.model.ndims()
    }

    /// The body of the request that asks for the embeddings of `documents`:
    /// the model's name, the documents as they are, and the input type.
    pub fn embed_request(&self, documents: &Vec<String>) -> (r: EmbedRequest)
        ensures
            r.model@ == self.model.name(),
            r.texts@ == documents@,
            r.input_type == self.input_type,
    {
        EmbedRequest {
            model: self.model.to_string(),
            texts: clone_texts(documents),
            input_type: self.input_type.clone(),
        }
    }

    /// What a call returns, given the documents sent and what came of the
    /// request. A transport failure, a body that fits no shape and an error
    /// that the provider reported each give their own error; a payload gives
    /// the documents paired with its embeddings, if the counts agree.
    pub fn embed_outcome<V>(documents: Vec<String>, outcome: Outcome<EmbeddingResponse<V>>) -> (r: Result<
        Vec<Embedding<V>>,
        EmbeddingError,
    >)
        ensures
            match outcome {
                Err(failure) => r matches Err(EmbeddingError::HttpError(t)) && t == failure,
                Ok(None) => r matches Err(EmbeddingError::ResponseError(t)) && t@ == UNRECOGNISED_RESPONSE@,
                Ok(Some(ApiResponse::Failure(e))) => r matches Err(EmbeddingError::ProviderError(t)) && t == e.message,
                Ok(Some(ApiResponse::Success(response))) => {
                    &&& r is Ok <==> response.embeddings@.len() == documents@.len()
                    &&& match r {
                        Ok(pairs) => {
                            &&& pairs@.len() == documents@.len()
                            &&& forall|i: int| 0 <= i < pairs@.len() ==> (#[trigger] pairs@[i]).document
                                == documents@[i] && pairs@[i].vec == response.embeddings@[i]
                        },
                        Err(EmbeddingError::DocumentError(text)) => text@ == mismatch_text(
                            documents@.len(),
                            response.embeddings@.len(),
                        ),
                        Err(_) => false,
                    }
                },
            },
    {
        match outcome {
            Err(failure) => Err(EmbeddingError::HttpError(failure)),
            Ok(None) => Err(EmbeddingError::ResponseError(UNRECOGNISED_RESPONSE.to_owned())),
            Ok(Some(ApiResponse::Failure(e))) => Err(EmbeddingError::ProviderError(e.message)),
            Ok(Some(ApiResponse::Success(response))) => pair_embeddings(documents, response.embeddings),
        }
    }
}

} // verus!
