//! EternalAI provider: client configuration, request assembly and the
//! interpretation of the provider's answers.
//!
//! Sending requests and decoding JSON happen outside this module; here the
//! requests are planned and the decoded answers are turned into results.

use vstd::prelude::*;
use crate::completion;
use crate::embeddings::{Embedding, EmbeddingError};
use crate::http::{header_value_accepts, is_header_text};
use crate::json::{is_merge_of, merge, parse_json_value, parsed_json};
use crate::vecs::reversed;
use crate::text::{collapse_double_slashes, collapse_slashes, decimal, push_decimal, same_text};
use vstd::string::StringExecFns;

verus! {

broadcast use vstd::string::group_string_axioms;

// ================================================================
// Main EternalAI Client
// ================================================================

/// Base URL of the EternalAI API.
pub const ETERNALAI_API_BASE_URL: &'static str = "https://api.eternalai.org/v1";

/// Seconds after which a request to the provider is abandoned.
pub const REQUEST_TIMEOUT_SECS: u64 = 120;

/// The value of the `Authorization` header for an API key.
pub open spec fn bearer(api_key: Seq<char>) -> Seq<char> {
    "Bearer "@ + api_key
}

/// Connection settings of the EternalAI API: where requests go, the
/// `Authorization` header they carry, and their timeout.
#[derive(Clone, Debug)]
pub struct Client {
    base_url: String,
    authorization: String,
    timeout_secs: u64,
}

/// What a [`Client`] holds.
pub struct ClientView {
    pub base_url: Seq<char>,
    pub authorization: Seq<char>,
    pub timeout_secs: u64,
}

impl View for Client {
    type V = ClientView;

    closed spec fn view(&self) -> ClientView {
        ClientView {
            base_url: self.base_url@,
            authorization: self.authorization@,
            timeout_secs: self.timeout_secs,
        }
    }
}

/// The URL that a POST to `path` goes to: the base URL, a slash and the
/// path, with each doubled slash collapsed.
pub open spec fn post_url_of(base_url: Seq<char>, path: Seq<char>) -> Seq<char> {
    collapse_slashes(base_url + seq!['/'] + path)
}

impl Client {
    /// Whether the `Authorization` header built from `api_key` is a valid
    /// HTTP header value, as `Client::new` and `Client::from_url` need.
    pub fn accepts_api_key(api_key: &str) -> (ok: bool)
        ensures
            ok == is_header_text(bearer(api_key@)),
    {
        let mut authorization = String::from_str("Bearer ");
        authorization.append(api_key);
        header_value_accepts(authorization.as_str())
    }

    /// Create a new EternalAI client with the given API key.
    pub fn new(api_key: &str) -> (client: Self)
        requires
            is_header_text(bearer(api_key@)),
        ensures
            client@.base_url == ETERNALAI_API_BASE_URL@,
            client@.authorization == bearer(api_key@),
            client@.timeout_secs == REQUEST_TIMEOUT_SECS,
    {
        Self::from_url(api_key, ETERNALAI_API_BASE_URL)
    }

    /// Create a new EternalAI client with the given API key and base API URL.
    pub fn from_url(api_key: &str, base_url: &str) -> (client: Self)
        requires
            is_header_text(bearer(api_key@)),
        ensures
            client@.base_url == base_url@,
            client@.authorization == bearer(api_key@),
            client@.timeout_secs == REQUEST_TIMEOUT_SECS,
    {
        let mut authorization = String::from_str("Bearer ");
        authorization.append(api_key);
        Client { base_url: String::from_str(base_url), authorization, timeout_secs: REQUEST_TIMEOUT_SECS }
    }

    /// A client with the same settings.
    pub fn duplicate(&self) -> (copy: Self)
        ensures
            copy@ == self@,
    {
        Client {
            base_url: self.base_url.clone(),
            authorization: self.authorization.clone(),
            timeout_secs: self.timeout_secs,
        }
    }

    /// The base URL of the API.
    pub fn base_url(&self) -> (url: &str)
        ensures
            url@ == self@.base_url,
    {
        self.base_url.as_str()
    }

    /// The value of the `Authorization` header sent with each request.
    pub fn authorization(&self) -> (value: &str)
        ensures
            value@ == self@.authorization,
    {
        self.authorization.as_str()
    }

    /// The request timeout in seconds.
    pub fn timeout_secs(&self) -> (secs: u64)
        ensures
            secs == self@.timeout_secs,
    {
        self.timeout_secs
    }

    /// The URL that a POST request to `path` goes to.
    pub fn post_url(&self, path: &str) -> (url: String)
        ensures
            url@ == post_url_of(self@.base_url, path@),
    {
        let mut joined = self.base_url.clone();
        joined.append("/");
        joined.append(path);
        proof {
            reveal_strlit("/");
            assert(joined@ =~= self.base_url@ + seq!['/'] + path@);
        }
        collapse_double_slashes(joined.as_str())
    }
}

// ================================================================
// Provider answers
// ================================================================

/// The error body of the API.
#[derive(Clone, Debug)]
pub struct ApiErrorResponse {
    pub message: String,
}

/// A decoded answer of the API: the expected payload, or an error body.
#[derive(Debug)]
pub enum ApiResponse<T> {
    Payload(T),
    Error(ApiErrorResponse),
}

/// What came back for a request: a success status with the decoded body,
/// or a failure status with the body as text.
#[derive(Debug)]
pub enum ProviderReply<T> {
    Success(ApiResponse<T>),
    Failure(String),
}

// ================================================================
// EternalAI Embedding API
// ================================================================

/// `text-embedding-3-large` embedding model
pub const TEXT_EMBEDDING_3_LARGE: &'static str = "text-embedding-3-large";
/// `text-embedding-3-small` embedding model
pub const TEXT_EMBEDDING_3_SMALL: &'static str = "text-embedding-3-small";
/// `text-embedding-ada-002` embedding model
pub const TEXT_EMBEDDING_ADA_002: &'static str = "text-embedding-ada-002";

/// Most documents sent in one embedding request.
pub const MAX_DOCUMENTS: usize = 1024;

/// The embedding endpoint's answer. `V` is the type of one embedding vector.
#[derive(Debug)]
pub struct EmbeddingResponse<V> {
    pub object: String,
    pub data: Vec<EmbeddingData<V>>,
    pub model: String,
    pub usage: Usage,
}

/// One embedding of an [`EmbeddingResponse`].
#[derive(Debug)]
pub struct EmbeddingData<V> {
    pub object: String,
    pub embedding: V,
    pub index: usize,
}

/// Token counts reported by the API.
#[derive(Clone, Debug)]
pub struct Usage {
    pub prompt_tokens: usize,
    pub total_tokens: usize,
}

/// How a [`Usage`] is displayed.
pub open spec fn usage_text(prompt_tokens: nat, total_tokens: nat) -> Seq<char> {
    "Prompt tokens: "@ + decimal(prompt_tokens) + " Total tokens: "@ + decimal(total_tokens)
}

impl Usage {
    /// The display form: `Prompt tokens: {prompt_tokens} Total tokens: {total_tokens}`.
    pub fn display_text(&self) -> (text: String)
        ensures
            text@ == usage_text(self.prompt_tokens as nat, self.total_tokens as nat),
    {
        let mut text = String::from_str("Prompt tokens: ");
        push_decimal(&mut text, self.prompt_tokens);
        text.append(" Total tokens: ");
        push_decimal(&mut text, self.total_tokens);
        text
    }
}

impl From<ApiErrorResponse> for EmbeddingError {
    fn from(err: ApiErrorResponse) -> (res: Self) {
        EmbeddingError::ProviderError(err.message)
    }
}

impl vstd::std_specs::convert::FromSpecImpl<ApiErrorResponse> for EmbeddingError {
    open spec fn obeys_from_spec() -> bool {
        true
    }

    open spec fn from_spec(err: ApiErrorResponse) -> EmbeddingError {
        EmbeddingError::ProviderError(err.message)
    }
}

impl<V> From<ApiResponse<EmbeddingResponse<V>>> for Result<EmbeddingResponse<V>, EmbeddingError> {
    fn from(value: ApiResponse<EmbeddingResponse<V>>) -> (res: Self) {
        match value {
            ApiResponse::Payload(response) => Ok(response),
            ApiResponse::Error(err) => Err(EmbeddingError::ProviderError(err.message)),
        }
    }
}

impl<V> vstd::std_specs::convert::FromSpecImpl<ApiResponse<EmbeddingResponse<V>>> for Result<EmbeddingResponse<V>, EmbeddingError> {
    open spec fn obeys_from_spec() -> bool {
        true
    }

    open spec fn from_spec(value: ApiResponse<EmbeddingResponse<V>>) -> Result<
        EmbeddingResponse<V>,
        EmbeddingError,
    > {
        match value {
            ApiResponse::Payload(response) => Ok(response),
            ApiResponse::Error(err) => Err(EmbeddingError::ProviderError(err.message)),
        }
    }
}

/// The embedding dimension of a model that the provider offers, or 0 for a
/// model it does not know.
pub open spec fn known_ndims(model: Seq<char>) -> usize {
    if model == TEXT_EMBEDDING_3_LARGE@ {
        3072
    } else if model == TEXT_EMBEDDING_3_SMALL@ || model == TEXT_EMBEDDING_ADA_002@ {
        1536
    } else {
        0
    }
}

/// An embedding model of the provider.
#[derive(Clone, Debug)]
pub struct EmbeddingModel {
    client: Client,
    pub model: String,
    ndims: usize,
}

/// What an [`EmbeddingModel`] holds.
pub struct EmbeddingModelView {
    pub client: ClientView,
    pub model: Seq<char>,
    pub ndims: usize,
}

impl View for EmbeddingModel {
    type V = EmbeddingModelView;

    closed spec fn view(&self) -> EmbeddingModelView {
        EmbeddingModelView { client: self.client@, model: self.model@, ndims: self.ndims }
    }
}

/// The body and destination of an embedding request.
#[derive(Clone, Debug)]
pub struct EmbeddingsRequest {
    pub url: String,
    pub model: String,
    pub input: Vec<String>,
}

/// The text of the error for an answer with a different number of
/// embeddings than documents sent.
pub open spec fn length_mismatch_text() -> Seq<char> {
    "Response data length does not match input length"@
}

impl EmbeddingModel {
    pub fn new(client: Client, model: &str, ndims: usize) -> (res: Self)
        ensures
            res@.client == client@,
            res@.model == model@,
            res@.ndims == ndims,
    {
        EmbeddingModel { client, model: String::from_str(model), ndims }
    }

    /// The number of dimensions of the model's embeddings.
    pub fn ndims(&self) -> (n: usize)
        ensures
            n == self@.ndims,
    {
        self.ndims
    }

    /// The client that the model's requests go through.
    pub fn client(&self) -> (client: &Client)
        ensures
            client@ == self@.client,
    {
        &self.client
    }

    /// The request that embeds `documents`: a POST to `/embeddings` with
    /// the model's name and the documents.
    pub fn embeddings_request(&self, documents: Vec<String>) -> (req: EmbeddingsRequest)
        ensures
            req.url@ == post_url_of(self@.client.base_url, "/embeddings"@),
            req.model@ == self@.model,
            req.input == documents,
    {
        EmbeddingsRequest {
            url: self.client.post_url("/embeddings"),
            model: self.model.clone(),
            input: documents,
        }
    }

    /// The outcome of embedding `documents`, given the provider's reply.
    ///
    /// A failure status gives its text as a provider error, an error body
    /// its message; a success must carry one embedding per document, which
    /// are paired with the documents in order.
    pub fn embed_texts_outcome<V>(reply: ProviderReply<EmbeddingResponse<V>>, documents: Vec<
        String,
    >) -> (res: Result<Vec<Embedding<V>>, EmbeddingError>)
        ensures
            reply matches ProviderReply::Failure(text) ==> res matches Err(
                EmbeddingError::ProviderError(m),
            ) && m == text,
            reply matches ProviderReply::Success(ApiResponse::Error(e)) ==> res matches Err(
                EmbeddingError::ProviderError(m),
            ) && m == e.message,
            reply matches ProviderReply::Success(ApiResponse::Payload(r)) ==> {
                &&& r.data.len() != documents.len() ==> (res matches Err(
                    EmbeddingError::ResponseError(m),
                ) && m@ == length_mismatch_text())
                &&& r.data.len() == documents.len() ==> (res matches Ok(out) && out.len()
                    == documents.len() && forall|i: int|
                    0 <= i < out.len() ==> #[trigger] out[i].document == documents[i]
                        && out[i].vec == r.data[i].embedding)
            },
    {
        match reply {
            ProviderReply::Failure(text) => Err(EmbeddingError::ProviderError(text)),
            ProviderReply::Success(ApiResponse::Error(err)) => Err(
                EmbeddingError::ProviderError(err.message),
            ),
            ProviderReply::Success(ApiResponse::Payload(response)) => {
                if response.data.len() != documents.len() {
                    return Err(
                        EmbeddingError::ResponseError(
                            String::from_str("Response data length does not match input length"),
                        ),
                    );
                }
                Ok(pair_embeddings(response.data, documents))
            },
        }
    }
}

impl EmbeddingModel {
    /// The outcome of embedding one text, given the provider's reply: as for
    /// [`EmbeddingModel::embed_texts_outcome`] with the text as the only
    /// document, the one embedding of a success being the result.
    pub fn embed_text_outcome<V>(reply: ProviderReply<EmbeddingResponse<V>>, text: String) -> (res:
        Result<Embedding<V>, EmbeddingError>)
        ensures
            reply matches ProviderReply::Failure(t) ==> (res matches Err(
                EmbeddingError::ProviderError(m),
            ) && m == t),
            reply matches ProviderReply::Success(ApiResponse::Error(e)) ==> (res matches Err(
                EmbeddingError::ProviderError(m),
            ) && m == e.message),
            reply matches ProviderReply::Success(ApiResponse::Payload(r)) ==> {
                &&& r.data.len() != 1 ==> (res matches Err(EmbeddingError::ResponseError(m)) && m@
                    == length_mismatch_text())
                &&& r.data.len() == 1 ==> (res matches Ok(e) && e.document == text && e.vec
                    == r.data[0].embedding)
            },
    {
        let mut documents: Vec<String> = Vec::new();
        documents.push(text);
        match Self::embed_texts_outcome(reply, documents) {
            Ok(embeddings) => {
                let mut embeddings = embeddings;
                Ok(embeddings.pop().unwrap())
            },
            Err(e) => Err(e),
        }
    }
}

/// Pairs each embedding with the document at the same position.
fn pair_embeddings<V>(data: Vec<EmbeddingData<V>>, documents: Vec<String>) -> (out: Vec<
    Embedding<V>,
>)
    requires
        data.len() == documents.len(),
    ensures
        out.len() == documents.len(),
        forall|i: int|
            #![trigger out[i]]
            0 <= i < out.len() ==> out[i].document == documents[i] && out[i].vec
                == data[i].embedding,
{
    let ghost data0 = data@;
    let ghost docs0 = documents@;
    let n = data.len();
    let mut pending_data = reversed(data);
    let mut pending_docs = reversed(documents);
    let mut out: Vec<Embedding<V>> = Vec::new();
    while pending_docs.len() > 0
        invariant
            pending_data.len() == pending_docs.len(),
            out.len() + pending_data.len() == n,
            n == data0.len(),
            n == docs0.len(),
            forall|k: int| 0 <= k < pending_data.len() ==> #[trigger] pending_data[k] == data0[n - 1 - k],
            forall|k: int| 0 <= k < pending_docs.len() ==> #[trigger] pending_docs[k] == docs0[n - 1 - k],
            forall|i: int|
                #![trigger out[i]]
                0 <= i < out.len() ==> out[i].document == docs0[i] && out[i].vec
                    == data0[i].embedding,
        decreases pending_docs.len(),
    {
        let d = pending_data.pop().unwrap();
        let doc = pending_docs.pop().unwrap();
        out.push(Embedding { document: doc, vec: d.embedding });
    }
    out
}

impl Client {
    /// Create an embedding model with the given name.
    /// Note: default embedding dimension of 0 will be used if model is not known.
    /// If this is the case, it's better to use function `embedding_model_with_ndims`
    pub fn embedding_model(&self, model: &str) -> (res: EmbeddingModel)
        ensures
            res@.client == self@,
            res@.model == model@,
            res@.ndims == known_ndims(model@),
            model@ == TEXT_EMBEDDING_3_LARGE@ ==> res@.ndims == 3072,
            model@ == TEXT_EMBEDDING_3_SMALL@ ==> res@.ndims == 1536,
            model@ == TEXT_EMBEDDING_ADA_002@ ==> res@.ndims == 1536,
            model@ != TEXT_EMBEDDING_3_LARGE@ && model@ != TEXT_EMBEDDING_3_SMALL@ && model@
                != TEXT_EMBEDDING_ADA_002@ ==> res@.ndims == 0,
    {
        proof {
            reveal_strlit("text-embedding-3-large");
            reveal_strlit("text-embedding-3-small");
            reveal_strlit("text-embedding-ada-002");
            assert(TEXT_EMBEDDING_3_LARGE@[17] != TEXT_EMBEDDING_3_SMALL@[17]);
            assert(TEXT_EMBEDDING_3_SMALL@[15] != TEXT_EMBEDDING_ADA_002@[15]);
            assert(TEXT_EMBEDDING_3_LARGE@[15] != TEXT_EMBEDDING_ADA_002@[15]);
        }
        let ndims = if same_text(model, TEXT_EMBEDDING_3_LARGE) {
            3072
        } else if same_text(model, TEXT_EMBEDDING_3_SMALL) || same_text(model, TEXT_EMBEDDING_ADA_002) {
            1536
        } else {
            0
        };
        EmbeddingModel::new(self.duplicate(), model, ndims)
    }

    /// Create an embedding model with the given name and the number of
    /// dimensions in the embedding generated by the model.
    pub fn embedding_model_with_ndims(&self, model: &str, ndims: usize) -> (res: EmbeddingModel)
        ensures
            res@.client == self@,
            res@.model == model@,
            res@.ndims == ndims,
    {
        EmbeddingModel::new(self.duplicate(), model, ndims)
    }

    /// Create a completion model with the given name.
    pub fn completion_model(&self, model: &str, chain_id: Option<&str>) -> (res: CompletionModel)
        ensures
            res@.client == self@,
            res@.model == model@,
            res@.chain_id == given_chain_id(chain_id),
    {
        CompletionModel::new(self.duplicate(), model, chain_id)
    }
}

// ================================================================
// EternalAI Completion API
// ================================================================

#[allow(non_upper_case_globals)]
pub const NOUS_RESErustleH_HERMES_3_LLAMA_3_1_70B_FP8: &'static str =
    "NousReserustleh/Hermes-3-Llama-3.1-70B-FP8";
pub const UNSLOTH_LLAMA_3_3_70B_INSTRUCT_BNB_4BIT: &'static str =
    "unsloth/Llama-3.3-70B-Instruct-bnb-4bit";

/// The chain that serves each model, by model name.
pub const MAPPING_CHAINID: [(&'static str, &'static str); 2] = [
    (NOUS_RESErustleH_HERMES_3_LLAMA_3_1_70B_FP8, "45762"),
    (UNSLOTH_LLAMA_3_3_70B_INSTRUCT_BNB_4BIT, "45762"),
];

/// The value of the first entry of `table` whose key is `key`.
pub open spec fn table_lookup(table: Seq<(Seq<char>, Seq<char>)>, key: Seq<char>) -> Option<
    Seq<char>,
>
    decreases table.len(),
{
    if table.len() == 0 {
        None
    } else if table[0].0 == key {
        Some(table[0].1)
    } else {
        table_lookup(table.skip(1), key)
    }
}

/// [`MAPPING_CHAINID`] as character sequences.
pub open spec fn chain_table() -> Seq<(Seq<char>, Seq<char>)> {
    MAPPING_CHAINID@.map_values(|entry: (&str, &str)| (entry.0@, entry.1@))
}

/// The chain id that [`MAPPING_CHAINID`] gives a model, if any.
pub open spec fn chain_id_of(model: Seq<char>) -> Option<Seq<char>> {
    table_lookup(chain_table(), model)
}

/// Looks up the chain that serves the model named `key`.
pub fn get_chain_id(key: &str) -> (res: Option<&'static str>)
    ensures
        res is Some <==> chain_id_of(key@) is Some,
        res matches Some(v) ==> chain_id_of(key@) == Some(v@),
{
    let ghost table = chain_table();
    let mut i: usize = 0;
    assert(table.skip(0) =~= table);
    while i < MAPPING_CHAINID.len()
        invariant
            i <= MAPPING_CHAINID@.len(),
            table == chain_table(),
            table.len() == MAPPING_CHAINID@.len(),
            table_lookup(table.skip(i as int), key@) == chain_id_of(key@),
        decreases MAPPING_CHAINID@.len() - i,
    {
        let (k, v) = MAPPING_CHAINID[i];
        assert(table.skip(i as int)[0] == table[i as int]);
        assert(table.skip(i as int).skip(1) =~= table.skip(i + 1));
        if same_text(k, key) {
            return Some(v);
        }
        i = i + 1;
    }
    None
}

/// The chain id given when a completion model is made: the given one, or
/// empty when none is given.
pub open spec fn given_chain_id(chain_id: Option<&str>) -> Seq<char> {
    match chain_id {
        Some(c) => c@,
        None => Seq::empty(),
    }
}

/// The chain id that a request of a model carries: its own when it has
/// one, else the one that [`MAPPING_CHAINID`] gives its model name, else
/// empty.
pub open spec fn effective_chain_id_of(model: Seq<char>, chain_id: Seq<char>) -> Seq<char> {
    if chain_id.len() > 0 {
        chain_id
    } else {
        match chain_id_of(model) {
            Some(c) => c,
            None => Seq::empty(),
        }
    }
}

/// A completion model of the provider, served on a chain.
#[derive(Clone, Debug)]
pub struct CompletionModel {
    client: Client,
    /// Name of the model (e.g.: gpt-3.5-turbo-1106)
    pub model: String,
    pub chain_id: String,
}

/// What a [`CompletionModel`] holds.
pub struct CompletionModelView {
    pub client: ClientView,
    pub model: Seq<char>,
    pub chain_id: Seq<char>,
}

impl View for CompletionModel {
    type V = CompletionModelView;

    closed spec fn view(&self) -> CompletionModelView {
        CompletionModelView {
            client: self.client@,
            model: self.model@,
            chain_id: self.chain_id@,
        }
    }
}

impl CompletionModel {
    pub fn new(client: Client, model: &str, chain_id: Option<&str>) -> (res: Self)
        ensures
            res@.client == client@,
            res@.model == model@,
            res@.chain_id == given_chain_id(chain_id),
    {
        let chain_id = match chain_id {
            Some(c) => String::from_str(c),
            None => String::new(),
        };
        CompletionModel { client, model: String::from_str(model), chain_id }
    }

    /// The client that the model's requests go through.
    pub fn client(&self) -> (client: &Client)
        ensures
            client@ == self@.client,
    {
        &self.client
    }

    /// The chain id that the model's requests carry.
    pub fn effective_chain_id(&self) -> (id: String)
        ensures
            id@ == effective_chain_id_of(self@.model, self@.chain_id),
    {
        if self.chain_id.as_str().is_empty() {
            match get_chain_id(self.model.as_str()) {
                Some(c) => String::from_str(c),
                None => String::new(),
            }
        } else {
            self.chain_id.clone()
        }
    }
}

/// The completion endpoint's answer.
#[derive(Debug)]
pub struct CompletionResponse {
    pub id: String,
    pub object: String,
    pub created: u64,
    pub model: String,
    pub system_fingerprint: Option<String>,
    pub choices: Vec<Choice>,
    pub usage: Option<Usage>,
    pub onchain_data: Option<serde_json::Value>,
}

/// One choice of a [`CompletionResponse`].
#[derive(Debug)]
pub struct Choice {
    pub index: usize,
    pub message: Message,
    pub logprobs: Option<serde_json::Value>,
    pub finish_reason: String,
}

/// The message of a [`Choice`].
#[derive(Debug)]
pub struct Message {
    pub role: String,
    pub content: Option<String>,
    pub tool_calls: Option<Vec<ToolCall>>,
}

/// A tool call requested by the model; `call_type` is the JSON field `type`.
#[derive(Debug)]
pub struct ToolCall {
    pub id: String,
    pub call_type: String,
    pub function: Function,
}

/// A tool definition as the API takes it; `tool_type` is the JSON field
/// `type`.
#[derive(Debug)]
pub struct ToolDefinition {
    pub tool_type: String,
    pub function: completion::ToolDefinition,
}

impl ToolDefinition {
    /// The API's form of a tool: a tool of type `"function"`.
    pub fn from(tool: completion::ToolDefinition) -> (res: Self)
        ensures
            res.tool_type@ == "function"@,
            res.function == tool,
    {
        ToolDefinition { tool_type: String::from_str("function"), function: tool }
    }
}

/// The function that a [`ToolCall`] names, with its arguments as JSON text.
#[derive(Debug)]
pub struct Function {
    pub name: String,
    pub arguments: String,
}

impl From<ApiErrorResponse> for completion::CompletionError {
    fn from(err: ApiErrorResponse) -> (res: Self) {
        completion::CompletionError::ProviderError(err.message)
    }
}

impl vstd::std_specs::convert::FromSpecImpl<ApiErrorResponse> for completion::CompletionError {
    open spec fn obeys_from_spec() -> bool {
        true
    }

    open spec fn from_spec(err: ApiErrorResponse) -> completion::CompletionError {
        completion::CompletionError::ProviderError(err.message)
    }
}

/// The tool calls of the first choice, if there is a first choice and it
/// has them.
pub open spec fn first_tool_calls(value: CompletionResponse) -> Option<Seq<ToolCall>> {
    if value.choices.len() > 0 {
        match value.choices[0].message.tool_calls {
            Some(calls) => Some(calls@),
            None => None,
        }
    } else {
        None
    }
}

/// The content of the first choice's message, if there is a first choice
/// and it has one.
pub open spec fn first_content(value: CompletionResponse) -> Option<String> {
    if value.choices.len() > 0 {
        value.choices[0].message.content
    } else {
        None
    }
}

/// The text of the error for a tool call list without entries.
pub open spec fn empty_tool_selection_text() -> Seq<char> {
    "Tool selection is empty"@
}

/// The text of the error for an answer with neither message nor tool call.
pub open spec fn no_choice_text() -> Seq<char> {
    "Response did not contain a message or tool call"@
}

/// How an answer of the completion endpoint determines the model's choice.
pub open spec fn completion_of(
    value: CompletionResponse,
    res: Result<completion::CompletionResponse<CompletionResponse>, completion::CompletionError>,
) -> bool {
    &&& res matches Ok(resp) ==> resp.raw_response == value
    &&& first_tool_calls(value) matches Some(calls) ==> {
        &&& calls.len() == 0 ==> (res matches Err(completion::CompletionError::ResponseError(m))
            && m@ == empty_tool_selection_text())
        &&& calls.len() > 0 ==> match parsed_json(calls[0].function.arguments@) {
            Ok(args) => res matches Ok(resp) && resp.choice == completion::ModelChoice::ToolCall(
                calls[0].function.name,
                args,
            ),
            Err(e) => res matches Err(completion::CompletionError::JsonError(e2)) && e2 == e,
        }
    }
    &&& first_tool_calls(value) is None ==> (first_content(value) matches Some(c) ==> (
    res matches Ok(resp) && resp.choice == completion::ModelChoice::Message(c)))
    &&& first_tool_calls(value) is None && first_content(value) is None ==> (
    res matches Err(completion::CompletionError::ResponseError(m)) && m@ == no_choice_text())
}

/// The first choice decides the model's choice: a tool call when its
/// message lists tool calls (the first of them, with its arguments as JSON),
/// whatever content the message also has; its content otherwise; the raw
/// response is kept either way.
pub proof fn first_choice_decides(
    value: CompletionResponse,
    res: Result<completion::CompletionResponse<CompletionResponse>, completion::CompletionError>,
)
    requires
        completion_of(value, res),
        value.choices.len() > 0,
    ensures
        res matches Ok(resp) ==> resp.raw_response == value,
        value.choices[0].message.tool_calls matches Some(calls) ==> (calls.len() > 0
            ==> match parsed_json(calls[0].function.arguments@) {
            Ok(args) => res matches Ok(resp) && resp.choice == completion::ModelChoice::ToolCall(
                calls[0].function.name,
                args,
            ),
            Err(e) => res matches Err(completion::CompletionError::JsonError(e2)) && e2 == e,
        }),
        value.choices[0].message.tool_calls matches Some(calls) ==> (calls.len() == 0 ==> res is Err),
        value.choices[0].message.tool_calls is None ==> (value.choices[0].message.content matches Some(
            c,
        ) ==> (res matches Ok(resp) && resp.choice == completion::ModelChoice::Message(c))),
        value.choices[0].message.tool_calls is None && value.choices[0].message.content is None
            ==> res is Err,
{
}

impl completion::CompletionResponse<CompletionResponse> {
    /// The model's choice in an answer of the completion endpoint.
    ///
    /// The first choice decides: its first tool call, with its arguments
    /// read as JSON, when it has a list of tool calls (an error when that
    /// list is empty or the arguments are not JSON); else its message
    /// content; else an error.
    pub fn try_from(value: CompletionResponse) -> (res: Result<Self, completion::CompletionError>)
        ensures
            completion_of(value, res),
    {
        if value.choices.len() > 0 {
            match &value.choices[0].message.tool_calls {
                Some(calls) => {
                    if calls.len() == 0 {
                        return Err(
                            completion::CompletionError::ResponseError(
                                String::from_str("Tool selection is empty"),
                            ),
                        );
                    }
                    let name = calls[0].function.name.clone();
                    let arguments = parse_json_value(calls[0].function.arguments.as_str());
                    return Self::tool_call_outcome(name, arguments, value);
                },
                None => {},
            }
            match &value.choices[0].message.content {
                Some(content) => {
                    let content = content.clone();
                    return Ok(
                        completion::CompletionResponse {
                            choice: completion::ModelChoice::Message(content),
                            raw_response: value,
                        },
                    );
                },
                None => {},
            }
        }
        Err(
            completion::CompletionError::ResponseError(
                String::from_str("Response did not contain a message or tool call"),
            ),
        )
    }

    /// The response for a call of the tool `name`, given how reading its
    /// arguments as JSON came out.
    pub fn tool_call_outcome(
        name: String,
        arguments: Result<serde_json::Value, serde_json::Error>,
        raw_response: CompletionResponse,
    ) -> (res: Result<Self, completion::CompletionError>)
        ensures
            arguments matches Ok(args) ==> (res matches Ok(resp) && resp.choice
                == completion::ModelChoice::ToolCall(name, args) && resp.raw_response
                == raw_response),
            arguments matches Err(e) ==> (res matches Err(completion::CompletionError::JsonError(
                e2,
            )) && e2 == e),
    {
        match arguments {
            Ok(args) => Ok(
                completion::CompletionResponse {
                    choice: completion::ModelChoice::ToolCall(name, args),
                    raw_response,
                },
            ),
            Err(e) => Err(completion::CompletionError::JsonError(e)),
        }
    }
}

/// The body and destination of a chat completion request. `tools` and
/// `tool_choice` are left out of the body when they are `None`.
#[derive(Debug)]
pub struct ChatRequest {
    pub url: String,
    pub model: String,
    pub chain_id: String,
    pub messages: Vec<completion::Message>,
    pub tools: Option<Vec<ToolDefinition>>,
    pub tool_choice: Option<String>,
}

/// Where the chat history starts in the messages of a request: after the
/// preamble, when there is one.
pub open spec fn history_start(preamble: Option<String>) -> int {
    if preamble is Some {
        1
    } else {
        0
    }
}

/// `messages` is the preamble as a system message (when there is one),
/// then the chat history, then the prompt as a user message.
pub open spec fn is_full_history(
    messages: Seq<completion::Message>,
    preamble: Option<String>,
    chat_history: Seq<completion::Message>,
    prompt: String,
) -> bool {
    let start = history_start(preamble);
    &&& messages.len() == start + chat_history.len() + 1
    &&& preamble matches Some(p) ==> messages[0].role@ == "system"@ && messages[0].content == p
    &&& forall|i: int| 0 <= i < chat_history.len() ==> #[trigger] messages[start + i] == chat_history[i]
    &&& messages.last().role@ == "user"@
    &&& messages.last().content == prompt
}

/// Whatever the preamble, the whole chat history reaches the request, in
/// order and unchanged, right before the prompt; the request holds one
/// message more than the history and the prompt together exactly when there
/// is a preamble.
pub proof fn full_history_keeps_chat(
    messages: Seq<completion::Message>,
    preamble: Option<String>,
    chat_history: Seq<completion::Message>,
    prompt: String,
)
    requires
        is_full_history(messages, preamble, chat_history, prompt),
    ensures
        messages.len() == chat_history.len() + 1 + (if preamble is Some { 1int } else { 0int }),
        messages.subrange(messages.len() - 1 - chat_history.len(), messages.len() - 1)
            == chat_history,
        messages.last().content == prompt,
{
    let start = history_start(preamble);
    assert(messages.subrange(messages.len() - 1 - chat_history.len(), messages.len() - 1)
        =~= chat_history) by {
        assert forall|i: int| 0 <= i < chat_history.len() implies messages.subrange(
            messages.len() - 1 - chat_history.len(),
            messages.len() - 1,
        )[i] == chat_history[i] by {
            assert(messages[start + i] == chat_history[i]);
        }
    }
}

/// The tools as the API takes them: each of type `"function"`, in order.
pub open spec fn is_api_tools(api: Seq<ToolDefinition>, tools: Seq<completion::ToolDefinition>) -> bool {
    &&& api.len() == tools.len()
    &&& forall|i: int|
        0 <= i < api.len() ==> (#[trigger] api[i]).function == tools[i] && api[i].tool_type@
            == "function"@
}

/// Each tool in the API's form, in order.
fn api_tools(tools: Vec<completion::ToolDefinition>) -> (res: Vec<ToolDefinition>)
    ensures
        is_api_tools(res@, tools@),
{
    let ghost tools0 = tools@;
    let n = tools.len();
    let mut pending = reversed(tools);
    let mut res: Vec<ToolDefinition> = Vec::new();
    while pending.len() > 0
        invariant
            pending.len() + res.len() == n,
            n == tools0.len(),
            forall|k: int| 0 <= k < pending.len() ==> #[trigger] pending[k] == tools0[n - 1 - k],
            forall|i: int|
                0 <= i < res.len() ==> (#[trigger] res[i]).function == tools0[i]
                    && res[i].tool_type@ == "function"@,
        decreases pending.len(),
    {
        let tool = pending.pop().unwrap();
        res.push(ToolDefinition::from(tool));
    }
    res
}

impl CompletionModel {
    /// The messages of a request: the preamble as a system message (when
    /// there is one), the chat history, and the prompt (with its context
    /// documents) as a user message.
    pub fn full_history(
        preamble: Option<String>,
        chat_history: Vec<completion::Message>,
        prompt_with_context: String,
    ) -> (messages: Vec<completion::Message>)
        ensures
            is_full_history(messages@, preamble, chat_history@, prompt_with_context),
            messages@.len() == chat_history@.len() + 1 + (if preamble is Some { 1int } else { 0int }),
            messages@.subrange(messages@.len() - 1 - chat_history@.len(), messages@.len() - 1)
                == chat_history@,
    {
        let ghost history = chat_history@;
        let mut full_history: Vec<completion::Message> = Vec::new();
        match &preamble {
            Some(p) => {
                full_history.push(
                    completion::Message { role: String::from_str("system"), content: p.clone() },
                );
            },
            None => {},
        }
        let mut chat_history = chat_history;
        full_history.append(&mut chat_history);
        full_history.push(
            completion::Message { role: String::from_str("user"), content: prompt_with_context },
        );
        assert forall|i: int| 0 <= i < history.len() implies #[trigger] full_history@[history_start(
            preamble,
        ) + i] == history[i] by {}
        proof {
            full_history_keeps_chat(full_history@, preamble, history, prompt_with_context);
        }
        full_history
    }

    /// The request that asks the model to complete a chat: a POST to
    /// `/chat/completions` with the model's name, its chain id, the full
    /// history and, when there are any, the tools with `tool_choice`
    /// `"auto"`.
    pub fn chat_request(
        &self,
        preamble: Option<String>,
        chat_history: Vec<completion::Message>,
        prompt_with_context: String,
        tools: Vec<completion::ToolDefinition>,
    ) -> (req: ChatRequest)
        ensures
            req.url@ == post_url_of(self@.client.base_url, "/chat/completions"@),
            req.model@ == self@.model,
            req.chain_id@ == effective_chain_id_of(self@.model, self@.chain_id),
            is_full_history(req.messages@, preamble, chat_history@, prompt_with_context),
            req.messages@.len() == chat_history@.len() + 1 + (if preamble is Some { 1int } else { 0int }),
            req.messages@.subrange(req.messages@.len() - 1 - chat_history@.len(), req.messages@.len() - 1)
                == chat_history@,
            tools.len() == 0 ==> req.tools is None && req.tool_choice is None,
            tools.len() > 0 ==> (req.tools matches Some(t) && is_api_tools(t@, tools@)),
            tools.len() > 0 ==> (req.tool_choice matches Some(c) && c@ == "auto"@),
    {
        let messages = Self::full_history(preamble, chat_history, prompt_with_context);
        let (api, tool_choice) = if tools.len() == 0 {
            (None, None)
        } else {
            (Some(api_tools(tools)), Some(String::from_str("auto")))
        };
        ChatRequest {
            url: self.client.post_url("/chat/completions"),
            model: self.model.clone(),
            chain_id: self.effective_chain_id(),
            messages,
            tools: api,
            tool_choice,
        }
    }

    /// The body that a chat request sends: `body`, with the additional
    /// parameters merged in when there are any (their fields replacing
    /// those of the same name).
    pub fn request_body(body: serde_json::Value, additional_params: Option<serde_json::Value>) -> (res: serde_json::Value)
        ensures
            additional_params is None ==> res == body,
            additional_params matches Some(p) ==> is_merge_of(res, body, p),
    {
        match additional_params {
            Some(params) => merge(body, params),
            None => body,
        }
    }

    /// The outcome of a completion, given the provider's reply: a failure
    /// status gives its text as a provider error, an error body its
    /// message, and an answer is read by `try_from`.
    pub fn completion_outcome(reply: ProviderReply<CompletionResponse>) -> (res: Result<
        completion::CompletionResponse<CompletionResponse>,
        completion::CompletionError,
    >)
        ensures
            reply matches ProviderReply::Failure(text) ==> (res matches Err(
                completion::CompletionError::ProviderError(m),
            ) && m == text),
            reply matches ProviderReply::Success(ApiResponse::Error(e)) ==> (res matches Err(
                completion::CompletionError::ProviderError(m),
            ) && m == e.message),
            reply matches ProviderReply::Success(ApiResponse::Payload(r)) ==> completion_of(r, res),
    {
        match reply {
            ProviderReply::Failure(text) => Err(completion::CompletionError::ProviderError(text)),
            ProviderReply::Success(ApiResponse::Error(err)) => Err(
                completion::CompletionError::ProviderError(err.message),
            ),
            ProviderReply::Success(ApiResponse::Payload(response)) => {
                completion::CompletionResponse::<CompletionResponse>::try_from(response)
            },
        }
    }
}

/// The two models of [`MAPPING_CHAINID`] are served on chain `45762`; no
/// other model name has a chain.
pub proof fn chain_ids_of_models(key: Seq<char>)
    ensures
        chain_id_of(NOUS_RESErustleH_HERMES_3_LLAMA_3_1_70B_FP8@) == Some("45762"@),
        chain_id_of(UNSLOTH_LLAMA_3_3_70B_INSTRUCT_BNB_4BIT@) == Some("45762"@),
        key != NOUS_RESErustleH_HERMES_3_LLAMA_3_1_70B_FP8@ && key
            != UNSLOTH_LLAMA_3_3_70B_INSTRUCT_BNB_4BIT@ ==> chain_id_of(key) is None,
{
    let t = chain_table();
    assert(t.len() == 2);
    assert(t[0] == (NOUS_RESErustleH_HERMES_3_LLAMA_3_1_70B_FP8@, "45762"@));
    assert(t[1] == (UNSLOTH_LLAMA_3_3_70B_INSTRUCT_BNB_4BIT@, "45762"@));
    assert(t.skip(1).skip(1).len() == 0);
    reveal_with_fuel(table_lookup, 3);
}

/// A request of a completion model carries the chain id the model was
/// made with; a model made without one gets its chain from
/// [`MAPPING_CHAINID`], or none.
pub proof fn chain_id_of_requests(model: Seq<char>, chain_id: Option<&str>)
    ensures
        chain_id matches Some(c) ==> (c@.len() > 0 ==> effective_chain_id_of(
            model,
            given_chain_id(chain_id),
        ) == c@),
        chain_id is None ==> effective_chain_id_of(model, given_chain_id(chain_id)) == match chain_id_of(model) {
            Some(c) => c,
            None => Seq::empty(),
        },
{
}

/// A path given with a leading slash reaches the same URL as without it,
/// when the base URL does not end in a slash: this is what collapsing the
/// doubled slashes of a request URL is for.
pub proof fn post_url_ignores_leading_slash(base_url: Seq<char>, path: Seq<char>)
    requires
        base_url.len() == 0 || base_url.last() != '/',
        path.len() == 0 || path[0] != '/',
    ensures
        post_url_of(base_url, seq!['/'] + path) == post_url_of(base_url, path),
{
    let with_slash = seq!['/', '/'] + path;
    let without = seq!['/'] + path;
    assert(base_url + seq!['/'] + (seq!['/'] + path) =~= base_url + with_slash);
    assert(base_url + seq!['/'] + path =~= base_url + without);
    crate::text::lemma_collapse_concat(base_url, with_slash);
    crate::text::lemma_collapse_concat(base_url, without);
    assert(with_slash.skip(2) =~= path);
    assert(without.skip(1) =~= path);
}

} // verus!
