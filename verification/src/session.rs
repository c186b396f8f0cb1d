//! The conversational session: what is handed to the chain library when the
//! session is built, and the build itself.

use langchain_rust::chain::builder::ConversationalChainBuilder;
use langchain_rust::chain::ChainError;
use langchain_rust::chain::ConversationalChain;
use langchain_rust::llm::openai::OpenAI;
use langchain_rust::llm::OpenAIConfig;
use langchain_rust::memory::SimpleMemory;
use langchain_rust::prompt::HumanMessagePromptTemplate;
use langchain_rust::prompt::MessageFormatterStruct;
use langchain_rust::prompt::PromptTemplate;
use langchain_rust::prompt::TemplateFormat;
use langchain_rust::schemas::Message;
use std::sync::Arc;
use vstd::prelude::*;
use vstd::string::*;

verus! {

/// The chain type of langchain_rust, seen through [`chain_parts`].
#[verifier::external_type_specification]
#[verifier::external_body]
pub struct ExConversationalChain(ConversationalChain);

/// The error type of langchain_rust's chains, carried through as an opaque
/// value.
#[verifier::external_type_specification]
#[verifier::external_body]
pub struct ExChainError(ChainError);

/// The chat prompt type of langchain_rust: a list of messages and message
/// templates, seen through [`prompt_items`].
#[verifier::external_type_specification]
#[verifier::external_body]
pub struct ExMessageFormatterStruct(MessageFormatterStruct);

/// The connection settings type that langchain_rust takes for an
/// OpenAI-compatible backend, seen through [`config_texts`].
#[verifier::external_type_specification]
#[verifier::external_body]
pub struct ExOpenAIConfig(OpenAIConfig);

/// The plain conversation memory of langchain_rust: a list of messages, seen
/// through [`memory_texts`].
#[verifier::external_type_specification]
#[verifier::external_body]
pub struct ExSimpleMemory(SimpleMemory);

/// The error type of std's formatting, carried through as an opaque value.
#[verifier::external_type_specification]
#[verifier::external_body]
pub struct ExFmtError(std::fmt::Error);

/// Everything that the session is built from, as plain text.
#[derive(Debug, Clone, PartialEq, Eq)]
pub struct ChainSettings {
    /// Root of the backend's OpenAI-compatible interface.
    pub api_base: String,
    /// Key presented to the backend.
    pub api_key: String,
    /// Model identifier.
    pub model: String,
    /// Fixed system instruction, the first part of the prompt.
    pub instruction: String,
    /// Template of the user's part of the prompt.
    pub template: String,
    /// Name of the single variable of the template.
    pub variable: String,
}

/// The process-wide session handle that every request handler shares.
pub struct State {
    pub chain: Arc<ConversationalChain>,
}

/// One item of a chat prompt, as plain values.
pub enum PromptItem {
    /// A fixed system message with this text.
    SystemMessage(Seq<char>),
    /// A human message that is made from this f-string template, whose
    /// variables have these names.
    HumanTemplate(Seq<char>, Seq<Seq<char>>),
}

/// The settings that a base URL, a model and a system instruction amount
/// to, as six texts in the order of the fields of [`ChainSettings`].
pub open spec fn settings_of(base_url: Seq<char>, model: Seq<char>, instruction: Seq<char>) -> (
    Seq<char>,
    Seq<char>,
    Seq<char>,
    Seq<char>,
    Seq<char>,
    Seq<char>,
) {
    (base_url + "/v1"@, "ollama"@, model, instruction, "{input}"@, "input"@)
}

impl ChainSettings {
    /// The six texts of the settings, in the order of the fields.
    pub open spec fn view(&self) -> (Seq<char>, Seq<char>, Seq<char>, Seq<char>, Seq<char>, Seq<char>) {
        (
            self.api_base@,
            self.api_key@,
            self.model@,
            self.instruction@,
            self.template@,
            self.variable@,
        )
    }
}

/// What a chain is built from, for settings given by their six texts: the
/// API base, the key and the model of the backend client; the prompt, which
/// is the instruction as a system message and then the template of the one
/// variable as a human message; and the conversation that the memory starts
/// from, which is empty.
pub open spec fn parts_of(
    settings: (Seq<char>, Seq<char>, Seq<char>, Seq<char>, Seq<char>, Seq<char>),
) -> (Seq<char>, Seq<char>, Seq<char>, Seq<PromptItem>, Seq<Seq<char>>) {
    (
        settings.0,
        settings.1,
        settings.2,
        seq![
            PromptItem::SystemMessage(settings.3),
            PromptItem::HumanTemplate(settings.4, seq![settings.5]),
        ],
        Seq::empty(),
    )
}

/// The API base and the API key that a configuration holds. Its
/// organisation and project are not part of it.
pub uninterp spec fn config_texts(config: OpenAIConfig) -> (Seq<char>, Seq<char>);

/// The items that a chat prompt holds, in the order in which they were
/// added.
pub uninterp spec fn prompt_items(prompt: MessageFormatterStruct) -> Seq<PromptItem>;

/// The texts of the messages that a memory holds, oldest first.
pub uninterp spec fn memory_texts(memory: SimpleMemory) -> Seq<Seq<char>>;

/// What a chain was built from: the API base, the API key and the model of
/// its backend client, the items of its prompt, and the texts of the
/// messages that its memory held when it was built.
pub uninterp spec fn chain_parts(chain: ConversationalChain) -> (
    Seq<char>,
    Seq<char>,
    Seq<char>,
    Seq<PromptItem>,
    Seq<Seq<char>>,
);

/// System instruction of the session that `new_conv_chain` builds.
pub open spec fn writer_text() -> Seq<char> {
    "You are a technical writer, specialist in rustlang programming language, you will write answer to the question for the beginners with some source code examples."@
}

/// System instruction of the session that `bootstrap` builds.
pub open spec fn service_text() -> Seq<char> {
    "You are a technical writer, specialist with the rustlang programming languages, you will write an answer to the question for the noobs, with some source code examples."@
}

/// Gives the system instruction of the session that `new_conv_chain`
/// builds.
pub fn writer_instruction() -> (text: String)
    ensures
        text@ == writer_text(),
{
    String::from_str(
        "You are a technical writer, specialist in rustlang programming language, you will write answer to the question for the beginners with some source code examples.",
    )
}

/// Gives the system instruction of the session that `bootstrap` builds.
pub fn service_instruction() -> (text: String)
    ensures
        text@ == service_text(),
{
    String::from_str(
        "You are a technical writer, specialist with the rustlang programming languages, you will write an answer to the question for the noobs, with some source code examples.",
    )
}

/// Works out what the session is built from: the backend is reached under
/// `/v1` of the base URL with the key `ollama`, and the prompt is the
/// instruction followed by the template `{input}` of the one variable
/// `input`.
pub fn chain_settings(base_url: &str, model: &str, instruction: String) -> (settings: ChainSettings)
    ensures
        settings@ == settings_of(base_url@, model@, instruction@),
{
    let root: String = String::from_str(base_url);
    ChainSettings {
        api_base: root.concat("/v1"),
        api_key: String::from_str("ollama"),
        model: String::from_str(model),
        instruction,
        template: String::from_str("{input}"),
        variable: String::from_str("input"),
    }
}

/// Calls `OpenAIConfig::default`, then `with_api_base` and `with_api_key`
/// on it. The two calls store the two texts in the configuration; its
/// organisation and project stay as the default read them from the
/// environment, and nothing is claimed of them.
#[verifier::external_body]
fn backend_config(api_base: &str, api_key: &str) -> (config: OpenAIConfig)
    ensures
        config_texts(config) == (api_base@, api_key@),
{
    OpenAIConfig::default().with_api_base(api_base).with_api_key(api_key)
}

/// Calls `MessageFormatterStruct::new`, which gives a prompt without items.
#[verifier::external_body]
fn empty_prompt() -> (prompt: MessageFormatterStruct)
    ensures
        prompt_items(prompt) == Seq::<PromptItem>::empty(),
{
    MessageFormatterStruct::new()
}

/// Calls `MessageFormatterStruct::add_message` with the message that
/// `Message::new_system_message` makes of the text. The call puts that
/// message behind the items that the prompt holds.
#[verifier::external_body]
fn add_system_message(prompt: &mut MessageFormatterStruct, text: &str)
    ensures
        prompt_items(*final(prompt)) == prompt_items(*old(prompt)).push(
            PromptItem::SystemMessage(text@),
        ),
{
    prompt.add_message(Message::new_system_message(text));
}

/// Calls `MessageFormatterStruct::add_template` with the human message
/// template that `HumanMessagePromptTemplate::new` makes of an f-string
/// `PromptTemplate` of the text and the one variable. The call puts that
/// template behind the items that the prompt holds.
#[verifier::external_body]
fn add_human_template(prompt: &mut MessageFormatterStruct, template: &str, variable: &str)
    ensures
        prompt_items(*final(prompt)) == prompt_items(*old(prompt)).push(
            PromptItem::HumanTemplate(template@, seq![variable@]),
        ),
{
    let text = PromptTemplate::new(
        template.to_string(),
        vec![variable.to_string()],
        TemplateFormat::FString,
    );
    prompt.add_template(Box::new(HumanMessagePromptTemplate::new(text)));
}

/// Calls `SimpleMemory::new`, which gives a memory without messages.
#[verifier::external_body]
fn fresh_memory() -> (memory: SimpleMemory)
    ensures
        memory_texts(memory) == Seq::<Seq<char>>::empty(),
{
    SimpleMemory::new()
}

/// Calls `ConversationalChainBuilder::build` on a new builder that was
/// given three things: as `llm`, the client that `OpenAI::default` makes,
/// set to the configuration (`with_config`) and the model (`with_model`);
/// as `prompt`, the prompt; as `memory`, the memory. The build fails only
/// for a builder that lacks the client, so here it succeeds, and the chain
/// holds what the builder was given.
#[verifier::external_body]
fn build_chain(
    config: OpenAIConfig,
    model: &str,
    prompt: MessageFormatterStruct,
    memory: SimpleMemory,
) -> (chain: Result<ConversationalChain, ChainError>)
    ensures
        chain is Ok,
        chain_parts(chain.unwrap()) == (
            config_texts(config).0,
            config_texts(config).1,
            model@,
            prompt_items(prompt),
            memory_texts(memory),
        ),
{
    let client = OpenAI::default().with_config(config).with_model(model);
    ConversationalChainBuilder::new().llm(client).prompt(prompt).memory(memory.into()).build()
}

/// Composes the two-part chat prompt: the instruction as a system message,
/// then the template of the one variable as a human message.
pub fn two_part_prompt(instruction: &str, template: &str, variable: &str) -> (prompt:
    MessageFormatterStruct)
    ensures
        prompt_items(prompt) == seq![
            PromptItem::SystemMessage(instruction@),
            PromptItem::HumanTemplate(template@, seq![variable@]),
        ],
{
    let mut prompt = empty_prompt();
    add_system_message(&mut prompt, instruction);
    add_human_template(&mut prompt, template, variable);
    proof {
        assert(prompt_items(prompt) =~= seq![
            PromptItem::SystemMessage(instruction@),
            PromptItem::HumanTemplate(template@, seq![variable@]),
        ]);
    }
    prompt
}

/// Builds the chain from its settings: the backend client under the
/// settings' base and key for the settings' model, the two-part prompt of
/// the settings' instruction and template, and an empty conversation
/// memory.
pub fn assemble(settings: &ChainSettings) -> (chain: ConversationalChain)
    ensures
        chain_parts(chain) == parts_of(settings@),
{
    let config = backend_config(settings.api_base.as_str(), settings.api_key.as_str());
    let prompt = two_part_prompt(
        settings.instruction.as_str(),
        settings.template.as_str(),
        settings.variable.as_str(),
    );
    let memory = fresh_memory();
    match build_chain(config, settings.model.as_str(), prompt, memory) {
        Ok(chain) => chain,
        Err(_) => unreached(),
    }
}

/// Builds the conversation chain for a backend and a model: the connection,
/// the prompt sent to the model, and the conversation memory. The backend
/// is reached under `/v1` of the base URL with the key `ollama`; the prompt
/// is the technical writer's instruction for beginners, then the template
/// `{input}`; the memory starts empty.
pub fn new_conv_chain(ollama_base_url: &str, model: &str) -> (chain: ConversationalChain)
    ensures
        chain_parts(chain) == parts_of(settings_of(ollama_base_url@, model@, writer_text())),
{
    let settings = chain_settings(ollama_base_url, model, writer_instruction());
    assemble(&settings)
}

impl State {
    /// Puts a chain into the handle that the request handlers share.
    pub fn new(chain: ConversationalChain) -> (state: State)
        ensures
            *state.chain == chain,
    {
        State { chain: Arc::new(chain) }
    }
}

/// Builds the session that the service shares among its request handlers.
/// It never fails. The backend is reached under `/v1` of the base URL with
/// the key `ollama`; the prompt is the service's instruction, then the
/// template `{input}`; the memory starts empty.
pub fn bootstrap(ollama_base_url: &str, model: &str) -> (state: Result<State, std::fmt::Error>)
    ensures
        match state {
            Ok(held) => chain_parts(*held.chain) == parts_of(
                settings_of(ollama_base_url@, model@, service_text()),
            ),
            Err(_) => false,
        },
{
    let settings = chain_settings(ollama_base_url, model, service_instruction());
    Ok(State::new(assemble(&settings)))
}

} // verus!
