use crate::v1::constants::API_URL_BASE;
use crate::v1::error::{ApiError, ClientError};
use crate::v1::text::{concat2, str_eq};
use crate::v1::tool::{CallError, ToolCall, ToolResult};
use vstd::prelude::*;

verus! {

/// The version of this client, as it reports itself in its user agent.
pub const CLIENT_VERSION: &'static str = "0.14.0";

/// The retries allowed for a failed request where none are given.
pub const DEFAULT_MAX_RETRIES: u32 = 5;

/// The timeout of a request, in seconds, where none is given.
pub const DEFAULT_TIMEOUT: u32 = 120;

// -----------------------------------------------------------------------------
// Requests

/// The HTTP method of a request to the API.
#[derive(Clone, Copy, Debug, PartialEq, Eq, Structural)]
pub enum HttpMethod {
    Get,
    Post,
}

/// How a request is sent and its response read: blocking, awaited, or as a
/// stream of server-sent events.
#[derive(Clone, Copy, Debug, PartialEq, Eq, Structural)]
pub enum Transport {
    Blocking,
    Async,
    EventStream,
}

/// A request to the API as the client prepares it: what to send where, and
/// with which headers.
#[derive(Clone, Debug)]
pub struct HttpRequest {
    pub method: HttpMethod,
    pub transport: Transport,
    pub url: String,
    /// The token sent in the `Authorization: Bearer` header.
    pub bearer_token: String,
    /// The value of the `Accept` header.
    pub accept: String,
    /// The value of the `User-Agent` header.
    pub user_agent: String,
}

/// The user agent that the client reports.
pub open spec fn user_agent_text() -> Seq<char> {
    "ivangabriele/mistralai-client-rs/"@ + CLIENT_VERSION@
}

/// The media type that a request accepts in response.
pub open spec fn accept_text(transport: Transport) -> Seq<char> {
    match transport {
        Transport::EventStream => "text/event-stream"@,
        _ => "application/json"@,
    }
}

/// The message of the error that answers a response whose status is not a
/// success. A blocking POST puts the body first, every other request the status.
pub open spec fn status_error_text(request: HttpRequest, status: Seq<char>, body: Seq<char>) -> Seq<
    char,
> {
    if request.method == HttpMethod::Post && request.transport == Transport::Blocking {
        body + ": "@ + status
    } else {
        status + ": "@ + body
    }
}

/// Whether an HTTP status code is a success (2xx).
pub fn status_is_success(code: u16) -> (r: bool)
    ensures
        r == (200 <= code <= 299),
{
    200 <= code && code <= 299
}

/// Whether the data of a server-sent event marks the end of a chat stream.
pub fn is_stream_done(data: &str) -> (r: bool)
    ensures
        r == (data@ == "[DONE]"@),
{
    str_eq(data, "[DONE]")
}

impl HttpRequest {
    /// The error that answers this request when the response's status is
    /// not a success, given the status as text and the response's body.
    pub fn error_for_status(&self, status: &str, body: &str) -> (r: ApiError)
        ensures
            r.message@ == status_error_text(*self, status@, body@),
    {
        let blocking_post = match (self.method, self.transport) {
            (HttpMethod::Post, Transport::Blocking) => true,
            _ => false,
        };
        let (first, second) = if blocking_post {
            (body, status)
        } else {
            (status, body)
        };
        let mut message = concat2(first, ": ");
        message.append(second);
        ApiError { message }
    }
}

// -----------------------------------------------------------------------------
// Client

/// The map from names to functions that a list of registered entries gives;
/// of two entries with one name the later one stands.
pub open spec fn registry_map<F>(entries: Seq<(String, F)>) -> Map<Seq<char>, F>
    decreases entries.len(),
{
    if entries.len() == 0 {
        Map::empty()
    } else {
        registry_map(entries.drop_last()).insert(entries.last().0@, entries.last().1)
    }
}

/// No two registered entries share a name.
pub open spec fn registry_names_distinct<F>(entries: Seq<(String, F)>) -> bool {
    forall|a: int, b: int|
        0 <= a < b < entries.len() ==> (#[trigger] entries[a]).0@ != (#[trigger] entries[b]).0@
}

/// The result recorded for a tool call: the output of its function, or
/// `NotFound` where no function ran.
pub open spec fn tool_result_for(call: ToolCall, output: Option<String>) -> ToolResult {
    ToolResult {
        id: call.id,
        name: call.function.name,
        result: match output {
            Some(o) => Ok(o),
            None => Err(CallError::NotFound),
        },
    }
}

/// The results recorded for a list of tool calls, one per call, in order.
pub open spec fn tool_results_for(calls: Seq<ToolCall>, outputs: Seq<Option<String>>) -> Seq<
    ToolResult,
> {
    Seq::new(calls.len(), |i: int| tool_result_for(calls[i], outputs[i]))
}

/// In a registry whose names are distinct, the function that a name maps
/// to is the one registered under it.
proof fn lemma_registry_at<F>(entries: Seq<(String, F)>, j: int)
    requires
        registry_names_distinct(entries),
        0 <= j < entries.len(),
    ensures
        registry_map(entries).contains_key(entries[j].0@),
        registry_map(entries)[entries[j].0@] == entries[j].1,
    decreases entries.len(),
{
    if j < entries.len() - 1 {
        let init = entries.drop_last();
        assert(init[j] == entries[j]);
        assert(registry_names_distinct(init)) by {
            assert forall|a: int, b: int| 0 <= a < b < init.len() implies (#[trigger] init[a]).0@
                != (#[trigger] init[b]).0@ by {
                assert(init[a] == entries[a]);
                assert(init[b] == entries[b]);
            }
        }
        lemma_registry_at(init, j);
        assert(entries[j].0@ != entries.last().0@) by {
            assert(entries[entries.len() - 1] == entries.last());
        }
    }
}

/// A name that no entry carries is not in the registry.
proof fn lemma_registry_absent<F>(entries: Seq<(String, F)>, name: Seq<char>)
    requires
        forall|j: int| 0 <= j < entries.len() ==> (#[trigger] entries[j]).0@ != name,
    ensures
        !registry_map(entries).contains_key(name),
    decreases entries.len(),
{
    if entries.len() > 0 {
        let init = entries.drop_last();
        assert forall|j: int| 0 <= j < init.len() implies (#[trigger] init[j]).0@ != name by {
            assert(init[j] == entries[j]);
        }
        lemma_registry_absent(init, name);
        assert(entries[entries.len() - 1] == entries.last());
    }
}

/// Putting a function in place of the entry of its name maps that name to it.
proof fn lemma_registry_update<F>(entries: Seq<(String, F)>, j: int, e: (String, F))
    requires
        registry_names_distinct(entries),
        0 <= j < entries.len(),
        e.0@ == entries[j].0@,
    ensures
        registry_map(entries.update(j, e)) == registry_map(entries).insert(e.0@, e.1),
    decreases entries.len(),
{
    let upd = entries.update(j, e);
    let init = entries.drop_last();
    if j == entries.len() - 1 {
        assert(upd.drop_last() =~= init);
        assert(registry_map(upd) =~= registry_map(entries).insert(e.0@, e.1));
    } else {
        assert(upd.drop_last() =~= init.update(j, e));
        assert(registry_names_distinct(init)) by {
            assert forall|a: int, b: int| 0 <= a < b < init.len() implies (#[trigger] init[a]).0@
                != (#[trigger] init[b]).0@ by {
                assert(init[a] == entries[a]);
                assert(init[b] == entries[b]);
            }
        }
        assert(init[j] == entries[j]);
        lemma_registry_update(init, j, e);
        assert(entries[j].0@ != entries.last().0@) by {
            assert(entries[entries.len() - 1] == entries.last());
        }
        assert(upd.last() == entries.last());
        assert(registry_map(upd) =~= registry_map(entries).insert(e.0@, e.1));
    }
}

/// The functions that the model may call, by name.
#[derive(Debug)]
pub struct FunctionRegistry<F> {
    entries: Vec<(String, F)>,
}

impl<F> FunctionRegistry<F> {
    /// No two registered entries share a name.
    #[verifier::type_invariant]
    spec fn names_distinct(&self) -> bool {
        registry_names_distinct(self.entries@)
    }

    /// The registered functions, by name.
    pub closed spec fn map(&self) -> Map<Seq<char>, F> {
        registry_map(self.entries@)
    }

    /// A registry with no function in it.
    pub fn new() -> (r: Self)
        ensures
            r.map() == Map::<Seq<char>, F>::empty(),
    {
        let r = FunctionRegistry { entries: Vec::new() };
        assert(r.map() =~= Map::<Seq<char>, F>::empty());
        r
    }

    /// Registers `function` under `name`, in place of any function that
    /// was registered under that name before.
    pub fn insert(&mut self, name: &str, function: F)
        ensures
            final(self).map() == old(self).map().insert(name@, function),
    {
        proof {
            use_type_invariant(&*self);
        }
        let mut entries: Vec<(String, F)> = Vec::new();
        std::mem::swap(&mut entries, &mut self.entries);
        let ghost old_entries = entries@;
        assert(old_entries == old(self).entries@);
        let mut j: usize = 0;
        let n = entries.len();
        let mut found = false;
        while j < n
            invariant_except_break
                !found,
                forall|jj: int| 0 <= jj < j ==> (#[trigger] entries@[jj]).0@ != name@,
            invariant
                n == entries@.len(),
                entries@ == old_entries,
                j <= n,
            ensures
                entries@ == old_entries,
                found ==> j < n && entries@[j as int].0@ == name@,
                !found ==> forall|jj: int| 0 <= jj < n ==> (#[trigger] entries@[jj]).0@ != name@,
            decreases n - j,
        {
            if str_eq(entries[j].0.as_str(), name) {
                found = true;
                break;
            }
            j = j + 1;
        }
        let entry = (name.to_string(), function);
        if found {
            proof {
                lemma_registry_update(old_entries, j as int, entry);
                let upd = old_entries.update(j as int, entry);
                assert forall|a: int, b: int| 0 <= a < b < upd.len() implies (
                #[trigger] upd[a]).0@ != (#[trigger] upd[b]).0@ by {
                    assert(upd[a].0@ == old_entries[a].0@);
                    assert(upd[b].0@ == old_entries[b].0@);
                }
            }
            entries.set(j, entry);
        } else {
            proof {
                let pushed = old_entries.push(entry);
                assert(pushed.drop_last() =~= old_entries);
                assert forall|a: int, b: int| 0 <= a < b < pushed.len() implies (
                #[trigger] pushed[a]).0@ != (#[trigger] pushed[b]).0@ by {
                    assert(pushed[a] == old_entries[a]);
                    if b < old_entries.len() {
                        assert(pushed[b] == old_entries[b]);
                    }
                }
            }
            entries.push(entry);
        }
        self.entries = entries;
    }

    /// The function registered under `name`, if there is one.
    pub fn get(&self, name: &str) -> (r: Option<&F>)
        ensures
            match r {
                Some(f) => self.map().contains_key(name@) && *f == self.map()[name@],
                None => !self.map().contains_key(name@),
            },
    {
        proof {
            use_type_invariant(self);
        }
        let mut j: usize = 0;
        let n = self.entries.len();
        while j < n
            invariant
                n == self.entries@.len(),
                j <= n,
                registry_names_distinct(self.entries@),
                forall|jj: int| 0 <= jj < j ==> (#[trigger] self.entries@[jj]).0@ != name@,
            decreases n - j,
        {
            if str_eq(self.entries[j].0.as_str(), name) {
                proof {
                    lemma_registry_at(self.entries@, j as int);
                }
                return Some(&self.entries[j].1);
            }
            j = j + 1;
        }
        proof {
            lemma_registry_absent(self.entries@, name@);
        }
        None
    }
}

/// A client of the Mistral AI platform API. It holds the functions that the
/// model may call by name (of type `F`) and the results of the calls that
/// it ran, which the caller collects, oldest first.
#[derive(Debug)]
pub struct Client<F> {
    pub api_key: String,
    pub endpoint: String,
    pub max_retries: u32,
    pub timeout: u32,
    pub functions: FunctionRegistry<F>,
    pub last_function_call_results: Vec<ToolResult>,
}

impl<F> Client<F> {
    /// Constructs a new `Client`.
    ///
    /// * `api_key` - An optional API key; where it is `None`, the value of
    ///   the `MISTRAL_API_KEY` environment variable, `env_api_key`, is used.
    /// * `endpoint` - An optional custom API endpoint. Defaults to the official API endpoint.
    /// * `max_retries` - Optional maximum number of retries for failed requests. Defaults to `5`.
    /// * `timeout` - Optional timeout in seconds for requests. Defaults to `120`.
    ///
    /// Fails with `MissingApiKey` where neither key is given.
    pub fn new(
        api_key: Option<String>,
        env_api_key: Option<String>,
        endpoint: Option<String>,
        max_retries: Option<u32>,
        timeout: Option<u32>,
    ) -> (r: Result<Self, ClientError>)
        ensures
            r is Ok <==> (api_key is Some || env_api_key is Some),
            r is Err ==> r->Err_0 == ClientError::MissingApiKey,
            r matches Ok(c) ==> {
                &&& c.api_key == (if api_key is Some {
                    api_key->0
                } else {
                    env_api_key->0
                })
                &&& c.endpoint@ == (match endpoint {
                    Some(e) => e@,
                    None => API_URL_BASE@,
                })
                &&& c.max_retries == (match max_retries {
                    Some(m) => m,
                    None => DEFAULT_MAX_RETRIES,
                })
                &&& c.timeout == (match timeout {
                    Some(t) => t,
                    None => DEFAULT_TIMEOUT,
                })
                &&& c.functions.map() == Map::<Seq<char>, F>::empty()
                &&& c.last_function_call_results@ == Seq::<ToolResult>::empty()
            },
    {
        let api_key = match api_key {
            Some(key) => key,
            None => match env_api_key {
                Some(key) => key,
                None => {
                    return Err(ClientError::MissingApiKey);
                },
            },
        };
        let endpoint = match endpoint {
            Some(e) => e,
            None => API_URL_BASE.to_string(),
        };
        let max_retries = match max_retries {
            Some(m) => m,
            None => DEFAULT_MAX_RETRIES,
        };
        let timeout = match timeout {
            Some(t) => t,
            None => DEFAULT_TIMEOUT,
        };
        Ok(Client {
            api_key,
            endpoint,
            max_retries,
            timeout,
            functions: FunctionRegistry::new(),
            last_function_call_results: Vec::new(),
        })
    }

    /// Registers `function` under `name`, so that the model's calls of that
    /// name run it; a function registered under that name before is replaced.
    pub fn register_function(&mut self, name: &str, function: F)
        ensures
            final(self).functions.map() == old(self).functions.map().insert(name@, function),
            final(self).last_function_call_results == old(self).last_function_call_results,
            final(self).api_key == old(self).api_key,
            final(self).endpoint == old(self).endpoint,
            final(self).max_retries == old(self).max_retries,
            final(self).timeout == old(self).timeout,
    {
        self.functions.insert(name, function);
    }

    /// The function that a call of `name` runs, if one is registered.
    pub fn find_function(&self, name: &str) -> (r: Option<&F>)
        ensures
            match r {
                Some(f) => self.functions.map().contains_key(name@) && *f == self.functions.map()[name@],
                None => !self.functions.map().contains_key(name@),
            },
    {
        self.functions.get(name)
    }

    /// Records the results of a batch of tool calls, in the order of the
    /// calls: `outputs[i]` is what the function that `calls[i]` names
    /// returned, or `None` where no function is registered under that name.
    /// A call's result is `NotFound` exactly when its name is not registered.
    pub fn record_function_call_results(&mut self, calls: &Vec<ToolCall>, outputs: Vec<Option<String>>)
        requires
            outputs@.len() == calls@.len(),
            forall|i: int|
                0 <= i < calls@.len() ==> ((#[trigger] outputs@[i]) is Some
                    <==> old(self).functions.map().contains_key(calls@[i].function.name@)),
        ensures
            final(self).last_function_call_results@ == old(self).last_function_call_results@
                + tool_results_for(calls@, outputs@),
            forall|i: int|
                0 <= i < calls@.len() ==> ((#[trigger] final(self).last_function_call_results@[old(
                    self,
                ).last_function_call_results@.len() + i]).result == Err::<String, CallError>(
                    CallError::NotFound,
                ) <==> !old(self).functions.map().contains_key(calls@[i].function.name@)),
            forall|i: int|
                0 <= i < calls@.len() ==> {
                    let r = #[trigger] final(self).last_function_call_results@[old(
                        self,
                    ).last_function_call_results@.len() + i];
                    &&& r.id == calls@[i].id
                    &&& r.name == calls@[i].function.name
                    &&& (outputs@[i] matches Some(o) ==> r.result == Ok::<String, CallError>(o))
                },
            final(self).functions == old(self).functions,
            final(self).api_key == old(self).api_key,
            final(self).endpoint == old(self).endpoint,
            final(self).max_retries == old(self).max_retries,
            final(self).timeout == old(self).timeout,
    {
        let ghost old_results = self.last_function_call_results@;
        let n = calls.len();
        let mut i: usize = 0;
        while i < n
            invariant
                n == calls@.len(),
                n == outputs@.len(),
                i <= n,
                self.functions == old(self).functions,
                self.api_key == old(self).api_key,
                self.endpoint == old(self).endpoint,
                self.max_retries == old(self).max_retries,
                self.timeout == old(self).timeout,
                self.last_function_call_results@ == old_results + tool_results_for(
                    calls@.take(i as int),
                    outputs@.take(i as int),
                ),
            decreases n - i,
        {
            let call = &calls[i];
            let id = match &call.id {
                Some(id) => Some(id.clone()),
                None => None,
            };
            let result = match &outputs[i] {
                Some(output) => Ok(output.clone()),
                None => Err(CallError::NotFound),
            };
            let tool_result = ToolResult { id, name: call.function.name.clone(), result };
            assert(tool_result == tool_result_for(calls@[i as int], outputs@[i as int]));
            self.last_function_call_results.push(tool_result);
            assert(tool_results_for(calls@.take(i + 1), outputs@.take(i + 1)) =~= tool_results_for(
                calls@.take(i as int),
                outputs@.take(i as int),
            ).push(tool_result));
            i = i + 1;
        }
        assert(calls@.take(n as int) =~= calls@);
        assert(outputs@.take(n as int) =~= outputs@);
        assert forall|k: int| 0 <= k < n implies ((#[trigger] self.last_function_call_results@[old_results.len() + k]).result
            == Err::<String, CallError>(CallError::NotFound) <==> !old(self).functions.map().contains_key(
            calls@[k].function.name@,
        )) by {
            assert(self.last_function_call_results@[old_results.len() + k] == tool_result_for(
                calls@[k],
                outputs@[k],
            ));
            assert(outputs@[k] is Some <==> old(self).functions.map().contains_key(
                calls@[k].function.name@,
            ));
        }
        assert forall|k: int| 0 <= k < n implies {
            let r = #[trigger] self.last_function_call_results@[old_results.len() + k];
            &&& r.id == calls@[k].id
            &&& r.name == calls@[k].function.name
            &&& (outputs@[k] matches Some(o) ==> r.result == Ok::<String, CallError>(o))
        } by {
            assert(self.last_function_call_results@[old_results.len() + k] == tool_result_for(
                calls@[k],
                outputs@[k],
            ));
        }
    }

    /// Takes the result of the last tool call that the client ran, if any
    /// is left.
    pub fn get_last_function_call_result(&mut self) -> (r: Option<ToolResult>)
        ensures
            old(self).last_function_call_results@.len() == 0 ==> r is None
                && final(self).last_function_call_results@ == old(self).last_function_call_results@,
            old(self).last_function_call_results@.len() > 0 ==> r == Some(
                old(self).last_function_call_results@.last(),
            ) && final(self).last_function_call_results@
                == old(self).last_function_call_results@.drop_last(),
            final(self).functions == old(self).functions,
            final(self).api_key == old(self).api_key,
            final(self).endpoint == old(self).endpoint,
            final(self).max_retries == old(self).max_retries,
            final(self).timeout == old(self).timeout,
    {
        self.last_function_call_results.pop()
    }

    /// Takes the results of all the tool calls that the client ran and that
    /// were not taken yet, oldest first.
    pub fn get_last_function_calls_results(&mut self) -> (r: Vec<ToolResult>)
        ensures
            r@ == old(self).last_function_call_results@,
            final(self).last_function_call_results@ == Seq::<ToolResult>::empty(),
            final(self).functions == old(self).functions,
            final(self).api_key == old(self).api_key,
            final(self).endpoint == old(self).endpoint,
            final(self).max_retries == old(self).max_retries,
            final(self).timeout == old(self).timeout,
    {
        let mut taken: Vec<ToolResult> = Vec::new();
        std::mem::swap(&mut taken, &mut self.last_function_call_results);
        taken
    }

    /// The request that sends `method` to the API's `path`, read back over
    /// `transport`, with the client's key and user agent.
    pub fn request(&self, method: HttpMethod, transport: Transport, path: &str) -> (r: HttpRequest)
        ensures
            r.method == method,
            r.transport == transport,
            r.url@ == self.endpoint@ + path@,
            r.bearer_token == self.api_key,
            r.accept@ == accept_text(transport),
            r.user_agent@ == user_agent_text(),
    {
        let url = concat2(self.endpoint.as_str(), path);
        let accept = match transport {
            Transport::EventStream => "text/event-stream".to_string(),
            _ => "application/json".to_string(),
        };
        let user_agent = concat2("ivangabriele/mistralai-client-rs/", CLIENT_VERSION);
        HttpRequest {
            method,
            transport,
            url,
            bearer_token: self.api_key.clone(),
            accept,
            user_agent,
        }
    }

    /// The request of a chat completion.
    pub fn chat_request(&self, transport: Transport) -> (r: HttpRequest)
        ensures
            r.method == HttpMethod::Post,
            r.transport == transport,
            r.url@ == self.endpoint@ + "/chat/completions"@,
            r.bearer_token == self.api_key,
            r.accept@ == accept_text(transport),
            r.user_agent@ == user_agent_text(),
    {
        self.request(HttpMethod::Post, transport, "/chat/completions")
    }

    /// The request of embeddings.
    pub fn embeddings_request(&self, transport: Transport) -> (r: HttpRequest)
        ensures
            r.method == HttpMethod::Post,
            r.transport == transport,
            r.url@ == self.endpoint@ + "/embeddings"@,
            r.bearer_token == self.api_key,
            r.accept@ == accept_text(transport),
            r.user_agent@ == user_agent_text(),
    {
        self.request(HttpMethod::Post, transport, "/embeddings")
    }

    /// The request of the list of models.
    pub fn list_models_request(&self, transport: Transport) -> (r: HttpRequest)
        ensures
            r.method == HttpMethod::Get,
            r.transport == transport,
            r.url@ == self.endpoint@ + "/models"@,
            r.bearer_token == self.api_key,
            r.accept@ == accept_text(transport),
            r.user_agent@ == user_agent_text(),
    {
        self.request(HttpMethod::Get, transport, "/models")
    }
}

// -----------------------------------------------------------------------------
// Laws

/// A function registered under a name is what a call of that name finds,
/// and every other name finds what it found before.
pub proof fn law_register_then_find<F>(c: Client<F>, name: Seq<char>, function: F, other: Seq<char>)
    ensures
        c.functions.map().insert(name, function).contains_key(name),
        c.functions.map().insert(name, function)[name] == function,
        other != name ==> c.functions.map().insert(name, function).contains_key(other)
            == c.functions.map().contains_key(other),
        other != name && c.functions.map().contains_key(other) ==> c.functions.map().insert(
            name,
            function,
        )[other] == c.functions.map()[other],
{
}

/// Each recorded result carries the id and the function name of its call,
/// and it is `NotFound` exactly when no function is registered under that
/// name, where an output is given exactly for the calls whose function is found.
pub proof fn law_unregistered_call_not_found<F>(
    c: Client<F>,
    calls: Seq<ToolCall>,
    outputs: Seq<Option<String>>,
)
    requires
        outputs.len() == calls.len(),
        forall|i: int|
            0 <= i < calls.len() ==> ((#[trigger] outputs[i]) is Some <==> c.functions.map().contains_key(
                calls[i].function.name@,
            )),
    ensures
        tool_results_for(calls, outputs).len() == calls.len(),
        forall|i: int|
            0 <= i < calls.len() ==> {
                &&& (#[trigger] tool_results_for(calls, outputs)[i]).id == calls[i].id
                &&& tool_results_for(calls, outputs)[i].name == calls[i].function.name
                &&& (tool_results_for(calls, outputs)[i].result == Err::<String, CallError>(
                    CallError::NotFound,
                ) <==> !c.functions.map().contains_key(calls[i].function.name@))
            },
{
    assert forall|i: int| 0 <= i < calls.len() implies {
        &&& (#[trigger] tool_results_for(calls, outputs)[i]).id == calls[i].id
        &&& tool_results_for(calls, outputs)[i].name == calls[i].function.name
        &&& (tool_results_for(calls, outputs)[i].result == Err::<String, CallError>(
            CallError::NotFound,
        ) <==> !c.functions.map().contains_key(calls[i].function.name@))
    } by {
        assert(outputs[i] is Some <==> c.functions.map().contains_key(calls[i].function.name@));
    }
}

/// A call whose function ran is recorded with exactly the output that the
/// function returned, whatever the call's arguments; every recorded result
/// carries its call's id and function name.
pub proof fn law_found_call_records_output(
    calls: Seq<ToolCall>,
    outputs: Seq<Option<String>>,
    i: int,
)
    requires
        outputs.len() == calls.len(),
        0 <= i < calls.len(),
    ensures
        tool_results_for(calls, outputs).len() == calls.len(),
        tool_results_for(calls, outputs)[i].id == calls[i].id,
        tool_results_for(calls, outputs)[i].name == calls[i].function.name,
        outputs[i] matches Some(o) ==> tool_results_for(calls, outputs)[i].result == Ok::<
            String,
            CallError,
        >(o),
        outputs[i] is None ==> tool_results_for(calls, outputs)[i].result == Err::<String, CallError>(
            CallError::NotFound,
        ),
{
}

/// Results are handed back last first: once a batch of calls is recorded,
/// the next result taken is that of the batch's last call, and taking all of
/// them gives the results held before, then the batch's, in call order.
pub proof fn law_results_last_first(
    held: Seq<ToolResult>,
    calls: Seq<ToolCall>,
    outputs: Seq<Option<String>>,
)
    requires
        outputs.len() == calls.len(),
        calls.len() > 0,
    ensures
        (held + tool_results_for(calls, outputs)).last() == tool_result_for(
            calls.last(),
            outputs.last(),
        ),
        (held + tool_results_for(calls, outputs)).drop_last() == held + tool_results_for(
            calls.drop_last(),
            outputs.drop_last(),
        ),
{
    assert((held + tool_results_for(calls, outputs)).drop_last() =~= held + tool_results_for(
        calls.drop_last(),
        outputs.drop_last(),
    ));
}

} // verus!
