//! The handshake that turns a configuration into a session, stage by stage.
//!
//! Each stage names what the caller does next and takes the outcome of it. A
//! failure at any stage ends the handshake: the stage is used up and no
//! session comes of it.

use crate::error::LspError;
use crate::lsp::client::{LspClient, LspClientConfig};
use crate::lsp::documents::{send_failure, send_failure_text, Notification};
use crate::lsp::gateway::Outcome;
use crate::lsp::types::{file_url, file_url_text};
use crate::lsp::LspResult;
use crate::text::copy_strings;
use crate::time::TimeSpan;
use vstd::prelude::*;

verus! {

/// What this client tells the language server that it can do. Nothing is
/// registered at run time, locations come as plain locations and not as
/// links, and document symbols may come as a forest.
#[derive(Clone, Copy, Debug, PartialEq, Eq, Structural)]
pub struct ClientCapabilities {
    /// Whether capabilities may be registered while the session runs.
    pub dynamic_registration: bool,
    /// Whether locations may come as links.
    pub link_support: bool,
    /// Whether completions may hold snippets.
    pub snippet_support: bool,
    /// Whether the client announces that it saves documents.
    pub save_notifications: bool,
    /// Whether the server may ask the client to apply edits.
    pub apply_edit: bool,
    /// Whether workspace edits may hold versioned document changes.
    pub document_changes: bool,
    /// Whether document symbols may come as a forest.
    pub hierarchical_document_symbols: bool,
    /// Whether hover text may come as markdown, which is then preferred to plain text.
    pub markdown_hover: bool,
    /// Whether the server may report progress.
    pub work_done_progress: bool,
    /// Whether experimental features are welcome.
    pub experimental: bool,
}

impl ClientCapabilities {
    /// The capabilities that this client offers.
    pub open spec fn offered_spec() -> ClientCapabilities {
        ClientCapabilities {
            dynamic_registration: false,
            link_support: false,
            snippet_support: false,
            save_notifications: false,
            apply_edit: true,
            document_changes: true,
            hierarchical_document_symbols: true,
            markdown_hover: true,
            work_done_progress: true,
            experimental: true,
        }
    }

    /// The capabilities that this client offers.
    pub fn offered() -> (capabilities: ClientCapabilities)
        ensures
            capabilities == ClientCapabilities::offered_spec(),
    {
        ClientCapabilities {
            dynamic_registration: false,
            link_support: false,
            snippet_support: false,
            save_notifications: false,
            apply_edit: true,
            document_changes: true,
            hierarchical_document_symbols: true,
            markdown_hover: true,
            work_done_progress: true,
            experimental: true,
        }
    }
}

/// The `initialize` request.
#[derive(Clone, Debug, PartialEq, Eq)]
pub struct InitializeRequest {
    /// The process of the client.
    pub process_id: u32,
    /// The URI of the workspace folder.
    pub workspace_uri: String,
    /// The name of the workspace folder.
    pub workspace_name: String,
    /// What the client can do.
    pub capabilities: ClientCapabilities,
    /// The name of the client.
    pub client_name: String,
    /// The version of the client.
    pub client_version: String,
}

/// How the attempt to start the language server ended.
#[derive(Clone, Debug, PartialEq, Eq)]
pub enum SpawnOutcome {
    /// The process could not be started; the text is that of the failure.
    Failed(String),
    /// The process runs and its standard output could not be captured.
    NoStdout,
    /// The process runs and its standard input could not be captured.
    NoStdin,
    /// The process runs with both pipes captured.
    Running,
}

/// The handshake before the workspace root is resolved. Next: resolve
/// `config.workspace_root` to an absolute path without symbolic links.
#[derive(Debug)]
pub struct RootPending {
    /// The configuration of the session to be.
    pub config: LspClientConfig,
}

/// What becomes of a standard stream of the server process.
#[derive(Clone, Copy, Debug, PartialEq, Eq, Structural)]
pub enum Stream {
    /// The stream is a pipe to this client and carries the protocol.
    Piped,
    /// The stream is that of this client; what the server writes to it is
    /// shown and not read.
    Inherited,
}

/// How the server process is started.
#[derive(Clone, Debug, PartialEq, Eq)]
pub struct SpawnPlan {
    /// The command.
    pub command: String,
    /// Its arguments.
    pub args: Vec<String>,
    /// The directory in which it runs.
    pub working_dir: String,
    /// Its standard input.
    pub stdin: Stream,
    /// Its standard output.
    pub stdout: Stream,
    /// Its standard error.
    pub stderr: Stream,
    /// Whether the process is killed when its handle is dropped, so that no
    /// server outlives its session.
    pub kill_on_drop: bool,
}

/// The handshake before the server runs. Next: start the process as
/// `plan()` says, and the message loop on its pipes.
#[derive(Debug)]
pub struct SpawnPending {
    /// The configuration of the session to be.
    pub config: LspClientConfig,
    /// The resolved workspace root.
    pub root: String,
}

/// The handshake before the server has answered. Next: send `request` and
/// wait for the answer no longer than `config.init_timeout`.
#[derive(Debug)]
pub struct InitializePending {
    /// The configuration of the session to be.
    pub config: LspClientConfig,
    /// The request to send.
    pub request: InitializeRequest,
}

/// The handshake before the server knows that its answer was accepted.
/// Next: send the `initialized` notification.
#[derive(Debug)]
pub struct ConfirmPending {
    /// The configuration of the session to be.
    pub config: LspClientConfig,
    /// What the server said it can do.
    pub capabilities: lsp_types::ServerCapabilities,
}

/// The name of a workspace folder whose root has the given last component.
pub open spec fn folder_name_of(last_component: Option<String>) -> Seq<char> {
    match last_component {
        Some(name) => name@,
        None => ".runes"@,
    }
}

impl RootPending {
    /// Takes the resolved root, or the text of the failure to resolve it.
    /// Without a root the server cannot be started.
    pub fn resolved(self, outcome: Result<String, String>) -> (result: LspResult<SpawnPending>)
        ensures
            match outcome {
                Ok(root) => result matches Ok(stage) && stage.config == self.config && stage.root
                    == root,
                Err(failure) => result matches Err(LspError::ServerStartFailed(detail))
                    && detail@ == "failed to canonicalize workspace root: "@ + failure@,
            },
    {
        match outcome {
            Ok(root) => Ok(SpawnPending { config: self.config, root }),
            Err(failure) => {
                let mut detail = String::new();
                detail.append("failed to canonicalize workspace root: ");
                detail.append(failure.as_str());
                Err(LspError::ServerStartFailed(detail))
            },
        }
    }
}

/// What `SpawnPending::spawned` returns.
pub open spec fn spawn_outcome(
    stage: SpawnPending,
    outcome: SpawnOutcome,
    process_id: u32,
    last_component: Option<String>,
    client_version: Seq<char>,
    result: LspResult<InitializePending>,
) -> bool {
    match outcome {
        SpawnOutcome::Failed(failure) => result matches Err(LspError::ServerStartFailed(detail))
            && detail@ == "failed to spawn '"@ + stage.config.server_command@ + "': "@
            + failure@,
        SpawnOutcome::NoStdout => result matches Err(LspError::ServerStartFailed(detail))
            && detail@ == "failed to capture stdout"@,
        SpawnOutcome::NoStdin => result matches Err(LspError::ServerStartFailed(detail))
            && detail@ == "failed to capture stdin"@,
        SpawnOutcome::Running => match file_url_text(stage.root@) {
            None => result matches Err(LspError::InitializationFailed(detail)) && detail@
                == "invalid workspace root path: "@ + stage.root@,
            Some(uri) => result matches Ok(next) && next.config == stage.config
                && next.request.process_id == process_id && next.request.workspace_uri@ == uri
                && next.request.workspace_name@ == folder_name_of(last_component)
                && next.request.capabilities == ClientCapabilities::offered_spec()
                && next.request.client_name@ == "kadabra-runes"@
                && next.request.client_version@ == client_version,
        },
    }
}

impl SpawnPending {
    /// How the server is to be started: the configured command with its
    /// arguments, in the workspace root, with pipes for input and output,
    /// standard error passed through, and the process bound to its handle.
    pub fn plan(&self) -> (plan: SpawnPlan)
        ensures
            plan.command@ == self.config.server_command@,
            plan.args@ == self.config.server_args@,
            plan.working_dir@ == self.root@,
            plan.stdin == Stream::Piped,
            plan.stdout == Stream::Piped,
            plan.stderr == Stream::Inherited,
            plan.kill_on_drop,
    {
        SpawnPlan {
            command: self.config.server_command.clone(),
            args: copy_strings(&self.config.server_args),
            working_dir: self.root.clone(),
            stdin: Stream::Piped,
            stdout: Stream::Piped,
            stderr: Stream::Inherited,
            kill_on_drop: true,
        }
    }

    /// Takes the outcome of starting the server and makes the `initialize`
    /// request: for the process `process_id`, with the workspace folder at
    /// the root's URI, named by the root's last component (`.runes` where it
    /// has none), and this client's name and version.
    pub fn spawned(
        self,
        outcome: SpawnOutcome,
        process_id: u32,
        last_component: Option<String>,
        client_version: &str,
    ) -> (result: LspResult<InitializePending>)
        ensures
            spawn_outcome(self, outcome, process_id, last_component, client_version@, result),
    {
        match outcome {
            SpawnOutcome::Failed(failure) => {
                let mut detail = String::new();
                detail.append("failed to spawn '");
                detail.append(self.config.server_command.as_str());
                detail.append("': ");
                detail.append(failure.as_str());
                Err(LspError::ServerStartFailed(detail))
            },
            SpawnOutcome::NoStdout => Err(
                LspError::ServerStartFailed("failed to capture stdout".to_owned()),
            ),
            SpawnOutcome::NoStdin => Err(
                LspError::ServerStartFailed("failed to capture stdin".to_owned()),
            ),
            SpawnOutcome::Running => {
                match file_url(self.root.as_str()) {
                    None => {
                        let mut detail = String::new();
                        detail.append("invalid workspace root path: ");
                        detail.append(self.root.as_str());
                        Err(LspError::InitializationFailed(detail))
                    },
                    Some(workspace_uri) => {
                        let workspace_name = match last_component {
                            Some(name) => name,
                            None => ".runes".to_owned(),
                        };
                        Ok(
                            InitializePending {
                                config: self.config,
                                request: InitializeRequest {
                                    process_id,
                                    workspace_uri,
                                    workspace_name,
                                    capabilities: ClientCapabilities::offered(),
                                    client_name: "kadabra-runes".to_owned(),
                                    client_version: client_version.to_owned(),
                                },
                            },
                        )
                    },
                }
            },
        }
    }
}

/// What `InitializePending::answered` returns.
pub open spec fn initialize_outcome(
    stage: InitializePending,
    outcome: Outcome<lsp_types::ServerCapabilities>,
    result: LspResult<ConfirmPending>,
) -> bool {
    match outcome {
        Outcome::TimedOut => result matches Err(LspError::Timeout(span)) && span
            == stage.config.init_timeout,
        Outcome::Failed(failure) => result matches Err(LspError::InitializationFailed(detail))
            && detail@ == "initialize request failed: "@ + failure@,
        Outcome::Completed(capabilities) => result matches Ok(next) && next.config
            == stage.config && next.capabilities == capabilities,
    }
}

impl InitializePending {
    /// How long the answer to the `initialize` request is waited for.
    pub fn timeout(&self) -> (timeout: TimeSpan)
        ensures
            timeout == self.config.init_timeout,
    {
        self.config.init_timeout
    }

    /// Takes the outcome of the `initialize` request. The capabilities of
    /// the answer are kept as they came.
    pub fn answered(self, outcome: Outcome<lsp_types::ServerCapabilities>) -> (result: LspResult<
        ConfirmPending,
    >)
        ensures
            initialize_outcome(self, outcome, result),
    {
        match outcome {
            Outcome::TimedOut => Err(LspError::Timeout(self.config.init_timeout)),
            Outcome::Failed(failure) => {
                let mut detail = String::new();
                detail.append("initialize request failed: ");
                detail.append(failure.as_str());
                Err(LspError::InitializationFailed(detail))
            },
            Outcome::Completed(capabilities) => Ok(
                ConfirmPending { config: self.config, capabilities },
            ),
        }
    }
}

impl ConfirmPending {
    /// The notification to send.
    pub fn notification(&self) -> (notification: Notification)
        ensures
            notification == Notification::Initialized,
    {
        Notification::Initialized
    }

    /// Takes the outcome of sending the `initialized` notification: nothing,
    /// or the text of the failure. Once it is sent the session is ready, with
    /// no document open and no request in flight.
    pub fn confirmed(self, sent: Result<(), String>) -> (result: LspResult<LspClient>)
        ensures
            match sent {
                Ok(_) => result matches Ok(client) && client.config() == self.config
                    && client.capabilities() == self.capabilities && client.open_documents()
                    == Set::<Seq<char>>::empty() && client.gateway().is_idle()
                    && client.gateway().timeout() == self.config.request_timeout,
                Err(failure) => result matches Err(LspError::InitializationFailed(detail))
                    && detail@ == send_failure_text("initialized"@, failure@),
            },
    {
        match sent {
            Ok(_) => Ok(LspClient::ready(self.config, self.capabilities)),
            Err(failure) => Err(
                LspError::InitializationFailed(send_failure("initialized", failure.as_str())),
            ),
        }
    }
}

} // verus!
