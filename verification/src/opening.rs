//! The way from a saved connection to an opened service: what is read, in which
//! order, and what ends it.
use crate::adapter;
use crate::adapter::build_operator;
use crate::adapter::OperatorBuild;
use crate::adapter::RuntimeEndpoint;
use crate::backend;
use crate::connection_fingerprint;
use crate::connection_fingerprint::base_fingerprint;
use crate::digest;
use crate::models;
use crate::models::FileConnectionConfig;
use crate::models::FileManagerError;
use crate::models::FileSecretUpdates;
use crate::models::HdfsConfig;
use crate::models::TestFileConnectionRequest;
use crate::secrets;
use crate::secrets::ResolvedSecrets;
use crate::text::joined2;
use crate::text::same_text;
use std::sync::Arc;
use vstd::prelude::*;

verus! {

/// A connection as it was saved, as far as an opened service depends on it.
#[derive(Debug)]
pub struct SavedConnection {
    pub id: String,
    pub is_file_connection: bool,
    pub query_timeout_secs: u64,
    pub idle_timeout_secs: u64,
}

impl Clone for SavedConnection {
    fn clone(&self) -> (copy: SavedConnection)
        ensures
            copy == *self,
    {
        SavedConnection {
            id: self.id.clone(),
            is_file_connection: self.is_file_connection,
            query_timeout_secs: self.query_timeout_secs,
            idle_timeout_secs: self.idle_timeout_secs,
        }
    }
}

/// The first connection with an id that is a file connection.
pub open spec fn first_saved(connections: Seq<SavedConnection>, id: Seq<char>) -> Option<SavedConnection>
    decreases connections.len(),
{
    if connections.len() == 0 {
        None
    } else if connections[0].id@ == id && connections[0].is_file_connection {
        Some(connections[0])
    } else {
        first_saved(connections.drop_first(), id)
    }
}

/// The ids of the file connections, in their order.
pub open spec fn file_connection_ids(connections: Seq<SavedConnection>) -> Seq<Seq<char>>
    decreases connections.len(),
{
    if connections.len() == 0 {
        Seq::empty()
    } else if connections.last().is_file_connection {
        file_connection_ids(connections.drop_last()).push(connections.last().id@)
    } else {
        file_connection_ids(connections.drop_last())
    }
}

/// The ids of the file connections: those whose services are dropped when the
/// tunnels that they may go through are saved anew.
pub fn connections_to_drop(connections: &Vec<SavedConnection>) -> (ids: Vec<String>)
    ensures
        Seq::new(ids@.len(), |i: int| ids@[i]@) == file_connection_ids(connections@),
{
    let mut ids: Vec<String> = Vec::new();
    let mut at: usize = 0;
    assert(connections@.take(0) =~= Seq::<SavedConnection>::empty());
    assert(Seq::new(ids@.len(), |i: int| ids@[i]@) =~= Seq::<Seq<char>>::empty());
    while at < connections.len()
        invariant
            at <= connections@.len(),
            Seq::new(ids@.len(), |i: int| ids@[i]@) == file_connection_ids(connections@.take(at as int)),
        decreases connections@.len() - at,
    {
        let ghost known = Seq::new(ids@.len(), |i: int| ids@[i]@);
        assert(connections@.take(at + 1).drop_last() =~= connections@.take(at as int));
        assert(connections@.take(at + 1).last() == connections@[at as int]);
        if connections[at].is_file_connection {
            ids.push(connections[at].id.clone());
            assert(Seq::new(ids@.len(), |i: int| ids@[i]@) =~= known.push(connections@[at as int].id@));
        }
        at = at + 1;
    }
    assert(connections@.take(at as int) =~= connections@);
    ids
}

/// How long an operation may take: without limit where the limit is zero.
pub open spec fn timeout_of(query_timeout_secs: u64) -> Option<u64> {
    if query_timeout_secs > 0 {
        Some(query_timeout_secs)
    } else {
        None
    }
}

/// How long an operation may take: without limit where the limit is zero.
pub fn operation_timeout(connection: &SavedConnection) -> (timeout: Option<u64>)
    ensures
        timeout == timeout_of(connection.query_timeout_secs),
{
    if connection.query_timeout_secs > 0 {
        Some(connection.query_timeout_secs)
    } else {
        None
    }
}

/// The saved connections are due to be loaded.
#[derive(Debug)]
#[non_exhaustive]
pub struct ConnectionsLoad {
    pub connection_id: String,
}

/// The file settings of a saved connection are due to be read.
#[derive(Debug)]
#[non_exhaustive]
pub struct ConfigRead {
    pub connection: SavedConnection,
    pub secrets: FileSecretUpdates,
}

/// The secrets of a connection are due to be resolved.
#[derive(Debug)]
#[non_exhaustive]
pub struct SecretsDue {
    pub connection: SavedConnection,
    pub request: TestFileConnectionRequest,
}

/// The tunnels of a connection are due to be resolved.
#[derive(Debug)]
#[non_exhaustive]
pub struct LayersDue {
    pub connection: SavedConnection,
    pub config: FileConnectionConfig,
    pub secrets: ResolvedSecrets,
}

/// A connection whose settings, secrets and tunnels are known. Its encodings are
/// due, where it is to be told from other connections.
#[derive(Debug)]
#[non_exhaustive]
pub struct KnownConnection {
    pub connection: SavedConnection,
    pub config: FileConnectionConfig,
    pub secrets: ResolvedSecrets,
    pub tunnelled: bool,
}

/// The encodings of a connection, of its settings and of its tunnels.
#[derive(Debug)]
pub struct ConnectionEncodings {
    pub connection: Vec<u8>,
    pub config: Vec<u8>,
    pub layers: Vec<u8>,
}

/// A connection that is ready to be opened.
#[derive(Debug)]
#[non_exhaustive]
pub struct PreparedOperator {
    pub known: KnownConnection,
    pub base_fingerprint: [u8; 32],
}

/// What is digested of a connection that is about to be opened.
pub open spec fn digested(known: KnownConnection, encodings: ConnectionEncodings) -> Seq<u8> {
    connection_fingerprint::base_content(
        encodings.connection@,
        encodings.config@,
        encodings.layers@,
        known.secrets@,
    )
}

/// A connection is opened from other settings, tunnels or secrets than before.
pub open spec fn is_changed(
    known: KnownConnection,
    encodings: ConnectionEncodings,
    known_then: KnownConnection,
    encodings_then: ConnectionEncodings,
) -> bool {
    ||| encodings.connection@ != encodings_then.connection@
    ||| encodings.config@ != encodings_then.config@
    ||| encodings.layers@ != encodings_then.layers@
    ||| exists|i: int|
        0 <= i < secrets::SECRET_COUNT && secrets::secret_in(known.secrets@, #[trigger] secrets::secret_name(i))
            != secrets::secret_in(known_then.secrets@, secrets::secret_name(i))
}

fn find_saved(connections: &Vec<SavedConnection>, id: &str) -> (found: Option<SavedConnection>)
    ensures
        found == first_saved(connections@, id@),
{
    let mut at: usize = 0;
    assert(connections@.skip(0) =~= connections@);
    while at < connections.len()
        invariant
            at <= connections@.len(),
            first_saved(connections@, id@) == first_saved(connections@.skip(at as int), id@),
        decreases connections@.len() - at,
    {
        assert(connections@.skip(at as int)[0] == connections@[at as int]);
        assert(connections@.skip(at as int).drop_first() =~= connections@.skip(at + 1));
        if same_text(connections[at].id.as_str(), id) && connections[at].is_file_connection {
            return Some(connections[at].clone());
        }
        at = at + 1;
    }
    None
}

/// Begins to open a saved connection.
pub fn prepare_saved(connection_id: &str) -> (due: ConnectionsLoad)
    ensures
        due.connection_id@ == connection_id@,
{
    ConnectionsLoad { connection_id: connection_id.to_owned() }
}

impl ConnectionsLoad {
    /// The saved connections: the first file connection with the id is opened,
    /// and keeps its secrets.
    pub fn loaded(self, reply: Result<Vec<SavedConnection>, String>) -> (step: Result<ConfigRead, FileManagerError>)
        ensures
            match reply {
                Err(_) => step matches Err(error) && error@ == models::manager_error(
                    "storage"@,
                    "Failed to load file connections"@,
                ),
                Ok(connections) => match first_saved(connections@, self.connection_id@) {
                    Some(found) => step matches Ok(due) && due.connection == found && forall|i: int|
                        0 <= i < crate::secrets::SECRET_COUNT ==> #[trigger] crate::secrets::update_of(due.secrets, i)
                            is Keep,
                    None => step matches Err(error) && error@ == models::manager_error(
                        "not_found"@,
                        "The file connection does not exist"@,
                    ),
                },
            },
    {
        match reply {
            Err(_) => Err(FileManagerError::new("storage", "Failed to load file connections")),
            Ok(connections) => match find_saved(&connections, self.connection_id.as_str()) {
                Some(connection) => Ok(ConfigRead { connection, secrets: FileSecretUpdates::default() }),
                None => Err(FileManagerError::new("not_found", "The file connection does not exist")),
            },
        }
    }
}

/// Begins to open a connection that is tried with changed secrets.
pub fn prepare_transient(connection: SavedConnection, secrets: FileSecretUpdates) -> (due: ConfigRead)
    ensures
        due.connection == connection,
        due.secrets == secrets,
{
    ConfigRead { connection, secrets }
}

impl ConfigRead {
    /// The file settings, or why the connection has none.
    pub fn read(self, reply: Result<FileConnectionConfig, FileManagerError>) -> (step: Result<
        SecretsDue,
        FileManagerError,
    >)
        ensures
            match reply {
                Ok(config) => step matches Ok(due) && due.connection == self.connection && due.request.config == config
                    && due.request.secrets == self.secrets && due.request.id == Some(self.connection.id),
                Err(error) => step == Err::<SecretsDue, FileManagerError>(error),
            },
    {
        match reply {
            Ok(config) => {
                let id = self.connection.id.clone();
                Ok(
                    SecretsDue {
                        connection: self.connection,
                        request: TestFileConnectionRequest { id: Some(id), config, secrets: self.secrets },
                    },
                )
            },
            Err(error) => Err(error),
        }
    }
}

impl SecretsDue {
    /// The secrets of [`SecretsDue::request`], or why they were refused.
    pub fn resolved(self, reply: Result<ResolvedSecrets, FileManagerError>) -> (step: Result<
        LayersDue,
        FileManagerError,
    >)
        ensures
            match reply {
                Ok(secrets) => step matches Ok(due) && due.connection == self.connection && due.config
                    == self.request.config && due.secrets == secrets,
                Err(error) => step == Err::<LayersDue, FileManagerError>(error),
            },
    {
        match reply {
            Ok(secrets) => Ok(LayersDue { connection: self.connection, config: self.request.config, secrets }),
            Err(error) => Err(error),
        }
    }
}

/// Refuses tunnels where the protocol cannot be led through one: says whether
/// there are any.
pub fn resolved_transport_layers(config: &FileConnectionConfig, reply: Result<usize, String>) -> (tunnelled: Result<
    bool,
    FileManagerError,
>)
    ensures
        match reply {
            Err(message) => tunnelled matches Err(error) && error@ == models::configuration_error(message@),
            Ok(count) => if count > 0 && !config.takes_tunnels() {
                tunnelled matches Err(error) && error@ == adapter::tunnel_error(config.label())
            } else {
                tunnelled == Ok::<bool, FileManagerError>(count > 0)
            },
        },
{
    match reply {
        Err(message) => Err(FileManagerError::new("configuration", message.as_str())),
        Ok(count) => if count > 0 && !config.supports_transport_layers() {
            let message = joined2(config.driver_label(), " does not support SSH or proxy transport layers");
            Err(FileManagerError::new("unsupported", message.as_str()))
        } else {
            Ok(count > 0)
        },
    }
}

impl LayersDue {
    /// How many tunnels the connection is led through.
    pub fn resolved(self, reply: Result<usize, String>) -> (step: Result<KnownConnection, FileManagerError>)
        ensures
            match reply {
                Err(message) => step matches Err(error) && error@ == models::configuration_error(message@),
                Ok(count) => if count > 0 && !self.config.takes_tunnels() {
                    step matches Err(error) && error@ == adapter::tunnel_error(self.config.label())
                } else {
                    step matches Ok(known) && known.connection == self.connection && known.config == self.config
                        && known.secrets == self.secrets && known.tunnelled == (count > 0)
                },
            },
    {
        match resolved_transport_layers(&self.config, reply) {
            Err(error) => Err(error),
            Ok(tunnelled) => Ok(
                KnownConnection {
                    connection: self.connection,
                    config: self.config,
                    secrets: self.secrets,
                    tunnelled,
                },
            ),
        }
    }
}

impl KnownConnection {
    /// The encodings by which the connection is told from others.
    pub fn encoded(self, reply: Result<ConnectionEncodings, String>) -> (step: Result<
        PreparedOperator,
        FileManagerError,
    >)
        ensures
            match reply {
                Err(_) => step matches Err(error) && error@ == models::configuration_error(
                    "Failed to fingerprint the file connection"@,
                ),
                Ok(encodings) => step matches Ok(prepared) && prepared.known == self && prepared.base_fingerprint@
                    == digest::sha256(digested(self, encodings)),
            },
    {
        match reply {
            Err(_) => Err(
                FileManagerError::new("configuration", "Failed to fingerprint the file connection"),
            ),
            Ok(encodings) => {
                let fingerprint = base_fingerprint(
                    encodings.connection.as_slice(),
                    encodings.config.as_slice(),
                    encodings.layers.as_slice(),
                    &self.secrets,
                );
                Ok(PreparedOperator { known: self, base_fingerprint: fingerprint })
            },
        }
    }

    /// The connection is ready to be opened without being told from others.
    pub fn untold(self) -> (prepared: PreparedOperator)
        ensures
            prepared.known == self,
            forall|i: int| 0 <= i < 32 ==> prepared.base_fingerprint@[i] == 0,
    {
        PreparedOperator { known: self, base_fingerprint: [0;32] }
    }
}

/// Opening was given up: the tunnels under an id are due to be taken down, and
/// then the error is returned.
#[derive(Debug)]
#[non_exhaustive]
pub struct BuildFailure {
    pub tunnel_id: String,
    pub connection: SavedConnection,
    pub error: FileManagerError,
}

/// The tunnels of a connection are due to be set up under an id: where do they
/// let it in?
#[derive(Debug)]
#[non_exhaustive]
pub struct EndpointDue {
    pub tunnel_id: String,
    pub prepared: PreparedOperator,
    pub generation: u64,
}

/// The service is due to be opened.
#[derive(Debug)]
#[non_exhaustive]
pub struct OperatorDue {
    pub tunnel_id: String,
    pub prepared: PreparedOperator,
    pub generation: u64,
    pub runtime_endpoint: Option<RuntimeEndpoint>,
}

/// The options of an HDFS client are due to be loaded, and the client to be
/// opened with them.
#[derive(Debug)]
#[non_exhaustive]
pub struct NativeDue {
    pub name_node: String,
    pub root: String,
    pub directory: String,
    pub request: OperatorDue,
}

/// A service was opened and is due to be kept.
#[derive(Debug)]
#[non_exhaustive]
pub struct OperatorReady {
    pub request: OperatorDue,
    pub operator: Arc<opendal::Operator>,
}

/// Tunnels are to be set up, or there are none.
#[derive(Debug)]
pub enum EndpointStep {
    Ask(EndpointDue),
    Build(OperatorDue),
}

/// The service was opened, or an HDFS client is to be opened, or the service was
/// refused.
#[derive(Debug)]
pub enum OperatorStep {
    Ready(OperatorReady),
    Load(NativeDue),
    Failed(BuildFailure),
}

/// Opens a prepared connection: a connection without tunnels at its own
/// endpoint. `generation` is that of the connection when opening began.
pub fn runtime_endpoint(tunnel_id: String, prepared: PreparedOperator, generation: u64) -> (step: EndpointStep)
    ensures
        if prepared.known.tunnelled {
            step matches EndpointStep::Ask(due) && due.tunnel_id == tunnel_id && due.prepared == prepared
                && due.generation == generation
        } else {
            step matches EndpointStep::Build(due) && due.tunnel_id == tunnel_id && due.prepared == prepared
                && due.generation == generation && due.runtime_endpoint is None
        },
{
    if prepared.known.tunnelled {
        EndpointStep::Ask(EndpointDue { tunnel_id, prepared, generation })
    } else {
        EndpointStep::Build(OperatorDue { tunnel_id, prepared, generation, runtime_endpoint: None })
    }
}

/// The id that the tunnels of a connection are set up under while it is tried.
pub fn transient_tunnel_id(connection: &SavedConnection) -> (id: String)
    ensures
        id@ == connection.id@ + ":file-test"@,
{
    joined2(connection.id.as_str(), ":file-test")
}

/// Opening was given up, under the id that it began with and with this error.
pub open spec fn gives_up(
    failure: BuildFailure,
    tunnel_id: String,
    prepared: PreparedOperator,
    error: models::ManagerErrorView,
) -> bool {
    failure.tunnel_id == tunnel_id && failure.connection == prepared.known.connection && failure.error@ == error
}

impl EndpointDue {
    /// Where the tunnels let the connection in, or why they were not set up.
    pub fn answered(self, reply: Result<(String, u16), String>) -> (step: Result<OperatorDue, BuildFailure>)
        ensures
            match reply {
                Ok((host, port)) => step matches Ok(due) && due.tunnel_id == self.tunnel_id && due.prepared
                    == self.prepared && due.generation == self.generation && due.runtime_endpoint == Some(
                    RuntimeEndpoint { host, port },
                ),
                Err(message) => step matches Err(failure) && gives_up(
                    failure,
                    self.tunnel_id,
                    self.prepared,
                    models::manager_error("connection_failed"@, message@),
                ),
            },
    {
        match reply {
            Ok((host, port)) => Ok(
                OperatorDue {
                    tunnel_id: self.tunnel_id,
                    prepared: self.prepared,
                    generation: self.generation,
                    runtime_endpoint: Some(RuntimeEndpoint { host, port }),
                },
            ),
            Err(message) => Err(
                BuildFailure {
                    tunnel_id: self.tunnel_id,
                    connection: self.prepared.known.connection,
                    error: FileManagerError::new("connection_failed", message.as_str()),
                },
            ),
        }
    }
}

/// The service was opened, an HDFS client is to be opened, or opening was given
/// up, as the settings, the secrets and the tunnel say.
pub open spec fn is_opened(step: OperatorStep, due: OperatorDue, unix: bool) -> bool {
    let config = due.prepared.known.config;
    let given = due.prepared.known.secrets@;
    let tunnel = due.runtime_endpoint;
    match adapter::settings_refusal(config, given, tunnel is Some, unix) {
        Some(refusal) => step matches OperatorStep::Failed(failure) && gives_up(
            failure,
            due.tunnel_id,
            due.prepared,
            refusal,
        ),
        None => match config {
            FileConnectionConfig::Hdfs { config: HdfsConfig::Native { name_node_uri, root, hadoop_config_directory } } =>
            step matches OperatorStep::Load(native) && native.name_node@ == name_node_uri@ && native.root@ == root@
                && native.directory@ == hadoop_config_directory@ && native.request == due,
            _ => match adapter::service(config, given, tunnel) {
                Ok(operator) => step matches OperatorStep::Ready(ready) && ready.request == due && *ready.operator
                    == operator,
                Err(refused) => step matches OperatorStep::Failed(failure) && gives_up(
                    failure,
                    due.tunnel_id,
                    due.prepared,
                    backend::build_failure(backend::kind_of(refused)),
                ),
            },
        },
    }
}

impl OperatorDue {
    /// Opens the service. `unix` says whether this is a Unix system.
    pub fn open(self, unix: bool) -> (step: OperatorStep)
        ensures
            is_opened(step, self, unix),
    {
        let tunnel = match &self.runtime_endpoint {
            Some(entry) => Some(entry),
            None => None,
        };
        let result = build_operator(&self.prepared.known.config, &self.prepared.known.secrets, tunnel, unix);
        match result {
            Ok(OperatorBuild::Open(operator)) => OperatorStep::Ready(
                OperatorReady { request: self, operator: Arc::new(operator) },
            ),
            Ok(OperatorBuild::LoadHadoopConfig { name_node, root, directory }) => OperatorStep::Load(
                NativeDue { name_node, root, directory, request: self },
            ),
            Err(error) => OperatorStep::Failed(
                BuildFailure {
                    tunnel_id: self.tunnel_id,
                    connection: self.prepared.known.connection,
                    error,
                },
            ),
        }
    }
}

impl NativeDue {
    /// The HDFS client, or why its options were refused or it was not opened.
    pub fn opened(self, reply: Result<opendal::Operator, FileManagerError>) -> (step: Result<
        OperatorReady,
        BuildFailure,
    >)
        ensures
            match reply {
                Ok(operator) => step matches Ok(ready) && ready.request == self.request && *ready.operator == operator,
                Err(error) => step matches Err(failure) && gives_up(
                    failure,
                    self.request.tunnel_id,
                    self.request.prepared,
                    error@,
                ),
            },
    {
        match reply {
            Ok(operator) => Ok(OperatorReady { request: self.request, operator: Arc::new(operator) }),
            Err(error) => Err(
                BuildFailure {
                    tunnel_id: self.request.tunnel_id,
                    connection: self.request.prepared.known.connection,
                    error,
                },
            ),
        }
    }
}

/// An opened service, and how many seconds an operation on it may take. The
/// services that are shared are numbered as they are opened: two leases with one
/// number are leases on one service.
pub struct FileOperatorLease {
    pub operator: Arc<opendal::Operator>,
    pub operation_timeout: Option<u64>,
    pub number: Ghost<Option<nat>>,
}

impl OperatorReady {
    /// Hands the service out without keeping it.
    pub fn into_lease(self) -> (lease: FileOperatorLease)
        ensures
            lease.operator == self.operator,
            lease.operation_timeout == timeout_of(self.request.prepared.known.connection.query_timeout_secs),
            lease.number@ is None,
    {
        FileOperatorLease {
            operator: self.operator,
            operation_timeout: operation_timeout(&self.request.prepared.known.connection),
            number: Ghost(None),
        }
    }
}

/// Of the connections with an id the first file connection is opened, and only
/// where none is a file connection is there none.
pub proof fn the_first_file_connection_is_opened(connections: Seq<SavedConnection>, id: Seq<char>)
    ensures
        match first_saved(connections, id) {
            Some(found) => found.id@ == id && found.is_file_connection && exists|i: int|
                0 <= i < connections.len() && #[trigger] connections[i] == found && forall|j: int|
                    0 <= j < i ==> !((#[trigger] connections[j]).id@ == id && connections[j].is_file_connection),
            None => forall|i: int|
                0 <= i < connections.len() ==> !((#[trigger] connections[i]).id@ == id
                    && connections[i].is_file_connection),
        },
    decreases connections.len(),
{
    if connections.len() > 0 {
        let rest = connections.drop_first();
        if !(connections[0].id@ == id && connections[0].is_file_connection) {
            the_first_file_connection_is_opened(rest, id);
            match first_saved(rest, id) {
                Some(found) => {
                    let i = choose|i: int|
                        0 <= i < rest.len() && #[trigger] rest[i] == found && forall|j: int|
                            0 <= j < i ==> !((#[trigger] rest[j]).id@ == id && rest[j].is_file_connection);
                    assert(connections[i + 1] == found);
                    assert forall|j: int| 0 <= j < i + 1 implies !((#[trigger] connections[j]).id@ == id
                        && connections[j].is_file_connection) by {
                        if j > 0 {
                            assert(rest[j - 1] == connections[j]);
                        }
                    }
                },
                None => {
                    assert forall|i: int| 0 <= i < connections.len() implies !((#[trigger] connections[i]).id@ == id
                        && connections[i].is_file_connection) by {
                        if i > 0 {
                            assert(rest[i - 1] == connections[i]);
                        }
                    }
                },
            }
        }
    }
}

/// The file connections are listed by their ids, each once and in their order, and
/// no others are.
pub proof fn file_connections_are_listed_in_order(
    first: Seq<SavedConnection>,
    connection: SavedConnection,
    second: Seq<SavedConnection>,
)
    ensures
        file_connection_ids(first + second) == file_connection_ids(first) + file_connection_ids(second),
        connection.is_file_connection ==> file_connection_ids(seq![connection]) == seq![connection.id@],
        !connection.is_file_connection ==> file_connection_ids(seq![connection]).len() == 0,
    decreases second.len(),
{
    reveal_with_fuel(file_connection_ids, 2);
    assert(seq![connection].drop_last() =~= Seq::<SavedConnection>::empty());
    assert(seq![connection].last() == connection);
    assert(file_connection_ids(Seq::<SavedConnection>::empty()).len() == 0);
    if second.len() > 0 {
        file_connections_are_listed_in_order(first, connection, second.drop_last());
        assert((first + second).drop_last() =~= first + second.drop_last());
        assert(file_connection_ids(first + second) =~= file_connection_ids(first) + file_connection_ids(second));
    } else {
        assert(first + second =~= first);
        assert(file_connection_ids(first) + file_connection_ids(second) =~= file_connection_ids(first));
    }
}

/// An operation may take as long as the connection says, and without limit where
/// it says nothing.
pub proof fn limits_are_those_of_the_connection(query_timeout_secs: u64)
    ensures
        query_timeout_secs > 0 ==> timeout_of(query_timeout_secs) == Some(query_timeout_secs),
        timeout_of(0) is None,
{
}

/// Opening that is given up names the tunnel that it began with, the connection and
/// the error.
pub proof fn given_up_openings_name_their_connection(
    failure: BuildFailure,
    tunnel_id: String,
    prepared: PreparedOperator,
    code: Seq<char>,
    message: Seq<char>,
)
    requires
        gives_up(failure, tunnel_id, prepared, models::manager_error(code, message)),
    ensures
        failure.tunnel_id@ == tunnel_id@,
        failure.connection == prepared.known.connection,
        failure.error.code@ == code && failure.error.message@ == message && failure.error.recovery is None,
{
}

/// A service is ready exactly where its settings are not refused, it is no HDFS
/// client of its own, and opening it succeeded: it is then the one that was opened.
/// The files of an HDFS client are loaded from the directory that it names.
pub proof fn services_are_opened_as_the_settings_say(step: OperatorStep, due: OperatorDue, unix: bool)
    requires
        is_opened(step, due, unix),
    ensures
        step matches OperatorStep::Ready(ready) ==> ready.request == due && adapter::settings_refusal(
            due.prepared.known.config,
            due.prepared.known.secrets@,
            due.runtime_endpoint is Some,
            unix,
        ) is None && adapter::service(
            due.prepared.known.config,
            due.prepared.known.secrets@,
            due.runtime_endpoint,
        ) == Ok::<opendal::Operator, opendal::Error>(*ready.operator),
        step matches OperatorStep::Load(native) ==> native.request == due && (due.prepared.known.config matches FileConnectionConfig::Hdfs {
            config: HdfsConfig::Native { name_node_uri, root, hadoop_config_directory },
        } && native.name_node@ == name_node_uri@ && native.root@ == root@ && native.directory@
            == hadoop_config_directory@),
        step matches OperatorStep::Failed(failure) ==> failure.tunnel_id == due.tunnel_id && failure.connection
            == due.prepared.known.connection,
        adapter::settings_refusal(
            due.prepared.known.config,
            due.prepared.known.secrets@,
            due.runtime_endpoint is Some,
            unix,
        ) matches Some(refusal) ==> (step matches OperatorStep::Failed(failure) && failure.error@ == refusal),
{
}

} // verus!
