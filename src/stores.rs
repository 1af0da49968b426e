use vstd::prelude::*;
use vstd::string::StringExecFns;
use crate::target::GraphDbType;
use crate::text::{chars_of, string_of};

verus! {

/// The longest text, in characters before escaping, that a FalkorDB node holds.
pub const FALKORDB_TEXT_LIMIT: usize = 1000;

/// `s` without its trailing slashes.
pub open spec fn trim_trailing_slashes(s: Seq<char>) -> Seq<char>
    decreases s.len(),
{
    if s.len() > 0 && s.last() == '/' {
        trim_trailing_slashes(s.drop_last())
    } else {
        s
    }
}

/// The vector store over an HTTP collection API.
#[derive(Debug, Clone)]
pub struct ChromaDbStore {
    pub base_url: String,
    pub collection_name: String,
}

impl ChromaDbStore {
    /// A store for `collection_name` at `url`, trailing slashes removed.
    pub fn new(url: &str, collection_name: &str) -> (r: Self)
        ensures
            r.base_url@ == trim_trailing_slashes(url@),
            r.collection_name@ == collection_name@,
    {
        let mut cs = chars_of(url);
        let mut k: usize = cs.len();
        assert(cs@.take(k as int) =~= cs@);
        while k > 0 && cs[k - 1] == '/'
            invariant
                k <= cs@.len(),
                trim_trailing_slashes(url@) == trim_trailing_slashes(cs@.take(k as int)),
                cs@ == url@,
            decreases k,
        {
            assert(cs@.take(k as int).drop_last() =~= cs@.take(k - 1));
            k = k - 1;
        }
        cs.truncate(k);
        ChromaDbStore { base_url: string_of(&cs), collection_name: String::from_str(collection_name) }
    }

    pub open spec fn spec_collections_url(&self) -> Seq<char> {
        self.base_url@ + "/api/v1/collections"@
    }

    pub open spec fn spec_add_url(&self) -> Seq<char> {
        self.base_url@ + "/api/v1/collections/"@ + self.collection_name@ + "/add"@
    }

    /// Where collections are created.
    pub fn collections_url(&self) -> (r: String)
        ensures
            r@ == self.spec_collections_url(),
    {
        let mut r = self.base_url.clone();
        r.append("/api/v1/collections");
        r
    }

    /// Where the batch of chunks of one document is added.
    pub fn add_url(&self) -> (r: String)
        ensures
            r@ == self.spec_add_url(),
    {
        let mut r = self.base_url.clone();
        r.append("/api/v1/collections/");
        r.append(self.collection_name.as_str());
        r.append("/add");
        r
    }
}

/// `s` with every single quote preceded by a backslash.
pub open spec fn escape_quotes(s: Seq<char>) -> Seq<char>
    decreases s.len(),
{
    if s.len() == 0 {
        Seq::empty()
    } else if s.last() == '\'' {
        escape_quotes(s.drop_last()) + seq!['\\', '\'']
    } else {
        escape_quotes(s.drop_last()).push(s.last())
    }
}

/// The first `n` characters of `s`, or all of them when there are fewer.
pub open spec fn at_most(s: Seq<char>, n: nat) -> Seq<char> {
    if s.len() <= n { s } else { s.take(n as int) }
}

/// The FalkorDB command that creates one `Document` node, values inlined.
pub open spec fn falkordb_query(id: Seq<char>, text: Seq<char>, metadata: Seq<char>) -> Seq<char> {
    "CREATE (d:Document {id: '"@ + escape_quotes(id) + "', text: '"@
        + escape_quotes(at_most(text, FALKORDB_TEXT_LIMIT as nat)) + "', metadata: '"@
        + escape_quotes(metadata) + "', created_at: timestamp()})"@
}

/// The characters of `s` with every single quote escaped.
pub fn escape_single_quotes(s: &str) -> (r: Vec<char>)
    ensures
        r@ == escape_quotes(s@),
{
    let cs = chars_of(s);
    let mut out: Vec<char> = Vec::new();
    let mut i: usize = 0;
    while i < cs.len()
        invariant
            i <= cs@.len(),
            cs@ == s@,
            out@ == escape_quotes(cs@.take(i as int)),
        decreases cs@.len() - i,
    {
        assert(cs@.take(i as int + 1).drop_last() =~= cs@.take(i as int));
        assert(cs@.take(i as int + 1).last() == cs@[i as int]);
        let c = cs[i];
        if c == '\'' {
            out.push('\\');
            out.push('\'');
        } else {
            out.push(c);
        }
        i = i + 1;
        assert(out@ =~= escape_quotes(cs@.take(i as int)));
    }
    assert(cs@.take(cs@.len() as int) =~= cs@);
    out
}

/// The graph store over FalkorDB's graph-query command.
#[derive(Debug, Clone)]
pub struct FalkorDbStore {
    pub url: String,
    pub graph_name: String,
}

impl FalkorDbStore {
    /// A store for the graph `graph_name` at `url`.
    pub fn new(url: &str, graph_name: &str) -> (r: Self)
        ensures
            r.url@ == url@,
            r.graph_name@ == graph_name@,
    {
        FalkorDbStore { url: String::from_str(url), graph_name: String::from_str(graph_name) }
    }

    /// The command that stores a document as one node: the text is cut to its
    /// first `FALKORDB_TEXT_LIMIT` characters, and the values are inlined with
    /// single quotes escaped. `metadata` is the serialized metadata.
    ///
    /// The escaping is plain string substitution, not parameter binding: a
    /// backslash in a value is passed through as it is.
    pub fn create_query(&self, document_id: &str, text: &str, metadata: &str) -> (r: String)
        ensures
            r@ == falkordb_query(document_id@, text@, metadata@),
    {
        let id = escape_single_quotes(document_id);
        let mut head = chars_of(text);
        head.truncate(FALKORDB_TEXT_LIMIT);
        let head_text = string_of(&head);
        let body = escape_single_quotes(head_text.as_str());
        let meta = escape_single_quotes(metadata);
        let mut q = String::new();
        q.append("CREATE (d:Document {id: '");
        q.append(string_of(&id).as_str());
        q.append("', text: '");
        q.append(string_of(&body).as_str());
        q.append("', metadata: '");
        q.append(string_of(&meta).as_str());
        q.append("', created_at: timestamp()})");
        assert(head@ == at_most(text@, FALKORDB_TEXT_LIMIT as nat));
        q
    }
}

/// The graph store over a direct Neo4j connection.
#[derive(Debug, Clone)]
pub struct Neo4jStore {
    pub uri: String,
    pub user: String,
    pub password: String,
}

impl Neo4jStore {
    /// A store that connects to `uri` as `user`.
    pub fn new(uri: &str, user: &str, password: &str) -> (r: Self)
        ensures
            r.uri@ == uri@,
            r.user@ == user@,
            r.password@ == password@,
    {
        Neo4jStore {
            uri: String::from_str(uri),
            user: String::from_str(user),
            password: String::from_str(password),
        }
    }

    pub open spec fn spec_create_query() -> Seq<char> {
        "CREATE (d:Document {id: $id, text: $text, metadata: $metadata, created_at: datetime()})"@
    }

    /// The parameterized query that stores a document as one node; it binds
    /// `id`, `text` and `metadata`.
    pub fn create_query() -> (r: String)
        ensures
            r@ == Self::spec_create_query(),
    {
        String::from_str(
            "CREATE (d:Document {id: $id, text: $text, metadata: $metadata, created_at: datetime()})",
        )
    }
}

/// The graph store through an embedded Python interpreter.
#[derive(Debug, Clone)]
pub struct GraphitiStore {
    pub python_script_path: String,
}

impl GraphitiStore {
    /// A store that runs the ingestion script at `python_script_path`.
    pub fn new(python_script_path: &str) -> (r: Self)
        ensures
            r.python_script_path@ == python_script_path@,
    {
        GraphitiStore { python_script_path: String::from_str(python_script_path) }
    }
}

/// The connection settings that a graph store may need.
#[derive(Debug, Clone)]
pub struct GraphConfig {
    pub uri: Option<String>,
    pub user: Option<String>,
    pub password: Option<String>,
    pub graph_name: Option<String>,
    pub script_path: Option<String>,
}

/// A graph store chosen and configured by `create_graph_store`.
#[derive(Debug, Clone)]
pub enum GraphBackend {
    Neo4j(Neo4jStore),
    Falkordb(FalkorDbStore),
}

/// Why a store could not be set up or written to.
#[derive(Debug, Clone, PartialEq, Eq)]
pub enum StoreError {
    MissingNeo4jUri,
    MissingNeo4jUser,
    MissingNeo4jPassword,
    MissingFalkordbUri,
    /// The interpreter-based backend is not part of this build.
    GraphitiDisabled,
    /// The backend rejected a write; its own words.
    Rejected(String),
}

impl StoreError {
    pub open spec fn spec_message(&self) -> Seq<char> {
        match self {
            StoreError::MissingNeo4jUri => "Missing neo4j uri"@,
            StoreError::MissingNeo4jUser => "Missing neo4j user"@,
            StoreError::MissingNeo4jPassword => "Missing neo4j password"@,
            StoreError::MissingFalkordbUri => "Missing falkordb uri"@,
            StoreError::GraphitiDisabled => "Graphiti support not enabled. Rebuild with --features graphiti"@,
            StoreError::Rejected(m) => m@,
        }
    }

    /// The human-readable message recorded on a failed job.
    pub fn message(&self) -> (r: String)
        ensures
            r@ == self.spec_message(),
    {
        match self {
            StoreError::MissingNeo4jUri => String::from_str("Missing neo4j uri"),
            StoreError::MissingNeo4jUser => String::from_str("Missing neo4j user"),
            StoreError::MissingNeo4jPassword => String::from_str("Missing neo4j password"),
            StoreError::MissingFalkordbUri => String::from_str("Missing falkordb uri"),
            StoreError::GraphitiDisabled => String::from_str("Graphiti support not enabled. Rebuild with --features graphiti"),
            StoreError::Rejected(m) => m.clone(),
        }
    }
}

/// The graph name a FalkorDB store gets from `config`.
pub open spec fn spec_graph_name(config: GraphConfig) -> Seq<char> {
    match config.graph_name {
        Some(g) => g@,
        None => "akashic"@,
    }
}

/// The error, if any, with which `create_graph_store` refuses these settings.
pub open spec fn graph_config_error(db_type: GraphDbType, config: GraphConfig) -> Option<StoreError> {
    match db_type {
        GraphDbType::Neo4j => if config.uri is None {
            Some(StoreError::MissingNeo4jUri)
        } else if config.user is None {
            Some(StoreError::MissingNeo4jUser)
        } else if config.password is None {
            Some(StoreError::MissingNeo4jPassword)
        } else {
            None
        },
        GraphDbType::Falkordb => if config.uri is None {
            Some(StoreError::MissingFalkordbUri)
        } else {
            None
        },
        GraphDbType::Graphiti => Some(StoreError::GraphitiDisabled),
    }
}

/// `b` is the store that `create_graph_store` builds for `db_type` from `config`.
pub open spec fn builds_backend(db_type: GraphDbType, config: GraphConfig, b: GraphBackend) -> bool {
    match (db_type, b) {
        (GraphDbType::Neo4j, GraphBackend::Neo4j(s)) => {
            &&& config.uri matches Some(u) && s.uri@ == u@
            &&& config.user matches Some(u) && s.user@ == u@
            &&& config.password matches Some(p) && s.password@ == p@
        },
        (GraphDbType::Falkordb, GraphBackend::Falkordb(s)) => {
            &&& config.uri matches Some(u) && s.url@ == u@
            &&& s.graph_name@ == spec_graph_name(config)
        },
        _ => false,
    }
}

/// Chooses and configures the graph store named by `db_type`. Neo4j needs a
/// uri, a user and a password; FalkorDB needs a uri and takes the graph name
/// `akashic` unless one is given; the Graphiti backend is not available.
pub fn create_graph_store(db_type: GraphDbType, config: &GraphConfig) -> (r: Result<GraphBackend, StoreError>)
    ensures
        db_type is Neo4j ==> {
            &&& config.uri is None ==> r == Err::<GraphBackend, StoreError>(StoreError::MissingNeo4jUri)
            &&& config.uri is Some && config.user is None
                ==> r == Err::<GraphBackend, StoreError>(StoreError::MissingNeo4jUser)
            &&& config.uri is Some && config.user is Some && config.password is None
                ==> r == Err::<GraphBackend, StoreError>(StoreError::MissingNeo4jPassword)
            &&& config.uri is Some && config.user is Some && config.password is Some ==> (
                r matches Ok(GraphBackend::Neo4j(s)) && s.uri@ == config.uri->0@
                    && s.user@ == config.user->0@ && s.password@ == config.password->0@)
        },
        db_type is Falkordb ==> {
            &&& config.uri is None ==> r == Err::<GraphBackend, StoreError>(StoreError::MissingFalkordbUri)
            &&& config.uri is Some ==> (r matches Ok(GraphBackend::Falkordb(s))
                && s.url@ == config.uri->0@ && s.graph_name@ == spec_graph_name(*config))
        },
        db_type is Graphiti ==> r == Err::<GraphBackend, StoreError>(StoreError::GraphitiDisabled),
        match graph_config_error(db_type, *config) {
            Some(e) => r == Err::<GraphBackend, StoreError>(e),
            None => r matches Ok(b) && builds_backend(db_type, *config, b),
        },
{
    match db_type {
        GraphDbType::Neo4j => {
            let uri = match &config.uri {
                Some(u) => u,
                None => return Err(StoreError::MissingNeo4jUri),
            };
            let user = match &config.user {
                Some(u) => u,
                None => return Err(StoreError::MissingNeo4jUser),
            };
            let password = match &config.password {
                Some(p) => p,
                None => return Err(StoreError::MissingNeo4jPassword),
            };
            Ok(GraphBackend::Neo4j(Neo4jStore::new(uri.as_str(), user.as_str(), password.as_str())))
        },
        GraphDbType::Falkordb => {
            let uri = match &config.uri {
                Some(u) => u,
                None => return Err(StoreError::MissingFalkordbUri),
            };
            let store = match &config.graph_name {
                Some(g) => FalkorDbStore::new(uri.as_str(), g.as_str()),
                None => FalkorDbStore::new(uri.as_str(), "akashic"),
            };
            Ok(GraphBackend::Falkordb(store))
        },
        GraphDbType::Graphiti => Err(StoreError::GraphitiDisabled),
    }
}

} // verus!
