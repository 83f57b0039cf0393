//! The adapter: what the query engine calls.

use crate::backend::{
    declared_subtypes, file_name_of, location, metadata_path, parent_of, path_file_name,
    path_parent, remote_url, schema_accepted, subtypes_of,
};
use crate::edges::{is_opened, resolve_vertex_edge};
use crate::naming::{choose_name, has_url, repository_name, ORIGIN};
use crate::neighbors::Neighbors;
use crate::properties::{is_property_value, resolve_vertex_property};
use crate::schema::{edge_named, kind_named, property_named, VertexKind, SCHEMA_TEXT};
use crate::text::{opt_str, opt_text, same_text};
use crate::types::RepositoryInfo;
use crate::value::{Value, ValueView};
use crate::vertex::Vertex;
use vstd::prelude::*;

verus! {

/// Answers the query engine's questions about one repository.
///
/// The adapter borrows the repository and only ever reads it. Every vertex
/// and every stream that it hands out is good for as long as the caller
/// keeps the repository open.
pub struct GitAdapter<'a> {
    git2_repo: &'a git2::Repository,
    schema: Option<trustfall::Schema>,
}

/// The names as mathematical values.
pub open spec fn texts(names: Seq<String>) -> Seq<Seq<char>> {
    names.map_values(|s: String| s@)
}

/// Whether `name` is one of `names`.
pub open spec fn is_among(name: Seq<char>, names: Seq<Seq<char>>) -> bool {
    exists|i: int| 0 <= i < names.len() && #[trigger] names[i] == name
}

/// The answers to a coercion for a batch, given the names of the types that
/// are of the target type: a vertex is of the target type exactly when the
/// name of its own type is among them, and a context without a vertex is
/// not.
pub open spec fn coerced(contexts: Seq<Option<Vertex>>, subtypes: Seq<Seq<char>>) -> Seq<bool> {
    Seq::new(
        contexts.len(),
        |i: int|
            match contexts[i] {
                Some(vertex) => is_among(vertex.spec_typename(), subtypes),
                None => false,
            },
    )
}

/// Whether every vertex of a batch is of the given kind.
pub open spec fn all_of_kind(contexts: Seq<Option<Vertex>>, kind: VertexKind) -> bool {
    forall|i: int|
        0 <= i < contexts.len() && (#[trigger] contexts[i]) is Some ==> contexts[i]->0.spec_kind()
            == kind
}

impl<'a> GitAdapter<'a> {
    /// The repository that the adapter reads.
    pub closed spec fn repository(&self) -> &'a git2::Repository {
        self.git2_repo
    }

    #[verifier::type_invariant]
    spec fn in_order(&self) -> bool {
        &&& self.schema is Some == schema_accepted(SCHEMA_TEXT@)
        &&& location(*self.git2_repo) is Some
    }

    /// The name of the directory that holds the metadata directory of the
    /// repository, if that directory has a name.
    pub closed spec fn directory(&self) -> Option<Seq<char>> {
        match path_parent(location(*self.git2_repo)->0) {
            Some(parent) => path_file_name(parent),
            None => None,
        }
    }

    /// The adapter for a repository. The schema is parsed here, once, and
    /// kept.
    ///
    /// The repository is one with a place on disk, as every repository is
    /// that was opened or initialised; one that was wrapped around a bare
    /// object database has none.
    pub fn new(git2_repo: &'a git2::Repository) -> (adapter: Self)
        requires
            location(*git2_repo) is Some,
        ensures
            adapter.repository() == git2_repo,
    {
        GitAdapter { git2_repo, schema: crate::schema::parse_schema() }
    }

    /// The schema of the graph as the engine holds it: there is one exactly
    /// when the engine accepts the schema text of this crate, whatever the
    /// repository.
    pub fn schema(&self) -> (schema: Option<&trustfall::Schema>)
        ensures
            schema is Some == schema_accepted(SCHEMA_TEXT@),
    {
        proof {
            use_type_invariant(self);
        }
        self.schema.as_ref()
    }

    /// The names of the types that the schema of this adapter declares to
    /// be of the type `name`; nothing where it declares no type of that
    /// name, or the engine did not accept the schema.
    pub closed spec fn declared(&self, name: Seq<char>) -> Option<Seq<Seq<char>>> {
        match self.schema {
            Some(schema) => declared_subtypes(schema, name),
            None => None,
        }
    }

    /// The names of the types that the schema declares to be of the type
    /// `name`. There are none where the schema declares no type of that
    /// name, or the engine did not accept the schema.
    pub fn subtypes(&self, name: &str) -> (names: Option<Vec<String>>)
        ensures
            match names {
                Some(found) => self.declared(name@) == Some(texts(found@)),
                None => self.declared(name@) is None,
            },
    {
        match &self.schema {
            Some(schema) => subtypes_of(schema, name),
            None => None,
        }
    }

    pub(crate) fn repo(&self) -> (repo: &'a git2::Repository)
        ensures
            repo == self.repository(),
    {
        self.git2_repo
    }

    /// The name of the directory that holds the repository's metadata
    /// directory, if it has one.
    pub fn directory_name(&self) -> (name: Option<String>)
        ensures
            opt_text(name) == self.directory(),
    {
        proof {
            use_type_invariant(self);
        }
        match parent_of(&metadata_path(self.git2_repo)) {
            Some(parent) => file_name_of(&parent),
            None => None,
        }
    }

    /// What the name of the repository is made of: the URL of the remote
    /// `origin`, if it has one, and the name of the directory. The directory
    /// is looked at only where the remote has no URL.
    fn name_sources(&self) -> (sources: (Option<String>, Option<String>))
        ensures
            !has_url(opt_text(sources.0)) ==> opt_text(sources.1) == self.directory(),
    {
        let url = remote_url(self.git2_repo, ORIGIN);
        let usable = match &url {
            Some(url) => !url.as_str().is_empty(),
            None => false,
        };
        let directory = if usable {
            None
        } else {
            self.directory_name()
        };
        (url, directory)
    }

    /// The name of the repository: the one in the URL of the remote
    /// `origin`, else the name of the directory that holds the repository,
    /// else `unknown`.
    pub fn repository_name(&self) -> (name: String)
        ensures
            exists|url: Option<Seq<char>>| name@ == #[trigger] repository_name(url, self.directory()),
    {
        let (url, directory) = self.name_sources();
        let name = choose_name(opt_str(&url), opt_str(&directory));
        assert(name@ == repository_name(opt_text(url), self.directory()));
        name
    }

    /// The vertices that a query starts from: along `repository`, the one
    /// and only repository, which bears the name that the URL of its origin
    /// and its directory give.
    pub fn resolve_starting_vertices(&self, edge_name: &str) -> (vertices: Vec<Vertex>)
        requires
            edge_name@ == "repository"@,
        ensures
            vertices@.len() == 1,
            vertices@[0] is Repository,
            exists|url: Option<Seq<char>>|
                vertices@[0]->Repository_0@ == #[trigger] repository_name(url, self.directory()),
    {
        let (url, directory) = self.name_sources();
        let vertices = starting_vertices(opt_str(&url), opt_str(&directory));
        assert(vertices@[0]->Repository_0@ == repository_name(opt_text(url), self.directory()));
        vertices
    }

    /// The property `property_name` of each vertex of a batch: one value
    /// for each context, in the order of the contexts, null for a context
    /// without a vertex.
    pub fn resolve_property(
        &self,
        contexts: &Vec<Option<Vertex>>,
        vertex_type: &str,
        property_name: &str,
    ) -> (values: Vec<Value>)
        requires
            kind_named(vertex_type@) is Some,
            property_named(kind_named(vertex_type@)->0, property_name@) is Some,
            all_of_kind(contexts@, kind_named(vertex_type@)->0),
        ensures
            values@.len() == contexts@.len(),
            forall|i: int|
                0 <= i < contexts@.len() ==> match contexts@[i] {
                    Some(vertex) => is_property_value(
                        vertex,
                        property_name@,
                        (#[trigger] values@[i])@,
                    ),
                    None => values@[i]@ == ValueView::Null,
                },
    {
        let mut values: Vec<Value> = Vec::new();
        let mut i: usize = 0;
        while i < contexts.len()
            invariant
                i <= contexts@.len(),
                values@.len() == i,
                kind_named(vertex_type@) is Some,
                property_named(kind_named(vertex_type@)->0, property_name@) is Some,
                all_of_kind(contexts@, kind_named(vertex_type@)->0),
                forall|j: int|
                    0 <= j < i ==> match contexts@[j] {
                        Some(vertex) => is_property_value(
                            vertex,
                            property_name@,
                            (#[trigger] values@[j])@,
                        ),
                        None => values@[j]@ == ValueView::Null,
                    },
            decreases contexts@.len() - i,
        {
            let value = match &contexts[i] {
                Some(vertex) => resolve_vertex_property(vertex, property_name),
                None => Value::Null,
            };
            values.push(value);
            i += 1;
        }
        values
    }

    /// The neighbors of each vertex of a batch along `edge_name`: one
    /// stream for each context, in the order of the contexts, an empty one
    /// for a context without a vertex.
    pub fn resolve_neighbors(
        &self,
        contexts: &Vec<Option<Vertex>>,
        vertex_type: &str,
        edge_name: &str,
        limit: Option<i64>,
    ) -> (streams: Vec<Neighbors<'a>>)
        requires
            kind_named(vertex_type@) is Some,
            edge_named(kind_named(vertex_type@)->0, edge_name@) is Some,
            all_of_kind(contexts@, kind_named(vertex_type@)->0),
        ensures
            streams@.len() == contexts@.len(),
            forall|i: int|
                0 <= i < contexts@.len() ==> match contexts@[i] {
                    Some(vertex) => is_opened(
                        vertex,
                        edge_named(kind_named(vertex_type@)->0, edge_name@)->0,
                        limit,
                        #[trigger] streams@[i],
                    ),
                    None => streams@[i] == Neighbors::<'a>::Single(None),
                },
    {
        let mut streams: Vec<Neighbors<'a>> = Vec::new();
        let mut i: usize = 0;
        while i < contexts.len()
            invariant
                i <= contexts@.len(),
                streams@.len() == i,
                kind_named(vertex_type@) is Some,
                edge_named(kind_named(vertex_type@)->0, edge_name@) is Some,
                all_of_kind(contexts@, kind_named(vertex_type@)->0),
                forall|j: int|
                    0 <= j < i ==> match contexts@[j] {
                        Some(vertex) => is_opened(
                            vertex,
                            edge_named(kind_named(vertex_type@)->0, edge_name@)->0,
                            limit,
                            #[trigger] streams@[j],
                        ),
                        None => streams@[j] == Neighbors::<'a>::Single(None),
                    },
            decreases contexts@.len() - i,
        {
            let stream = match &contexts[i] {
                Some(vertex) => resolve_vertex_edge(self, vertex, edge_name, limit),
                None => Neighbors::none(),
            };
            streams.push(stream);
            i += 1;
        }
        streams
    }

    /// Whether each vertex of a batch is also of the type `coerce_to_type`:
    /// one answer for each context, in the order of the contexts, `false`
    /// for a context without a vertex.
    ///
    /// The schema decides: a vertex is of the type where the name of its
    /// own type is among those that the schema declares to be of it. There
    /// are no answers where the schema declares no such type.
    pub fn resolve_coercion(
        &self,
        contexts: &Vec<Option<Vertex>>,
        vertex_type: &str,
        coerce_to_type: &str,
    ) -> (answers: Option<Vec<bool>>)
        ensures
            answers is Some == self.declared(coerce_to_type@) is Some,
            answers is Some ==> answers->0@ == coerced(
                contexts@,
                self.declared(coerce_to_type@)->0,
            ),
    {
        match self.subtypes(coerce_to_type) {
            Some(subtypes) => Some(coerce_all(contexts, &subtypes)),
            None => None,
        }
    }
}

/// The vertices that a query starts from, given what was read of the
/// repository: the one repository, under the name that the URL of its
/// origin and its directory give.
pub fn starting_vertices(origin_url: Option<&str>, directory: Option<&str>) -> (vertices: Vec<
    Vertex,
>)
    ensures
        vertices@.len() == 1,
        vertices@[0] is Repository,
        vertices@[0]->Repository_0@ == repository_name(
            match origin_url {
                Some(url) => Some(url@),
                None => None,
            },
            match directory {
                Some(dir) => Some(dir@),
                None => None,
            },
        ),
{
    let mut vertices: Vec<Vertex> = Vec::new();
    vertices.push(Vertex::Repository(RepositoryInfo::new(choose_name(origin_url, directory))));
    vertices
}

/// Whether `name` is one of `names`.
pub fn among(name: &str, names: &Vec<String>) -> (found: bool)
    ensures
        found == is_among(name@, texts(names@)),
{
    let mut i: usize = 0;
    while i < names.len()
        invariant
            i <= names@.len(),
            forall|j: int| 0 <= j < i ==> #[trigger] texts(names@)[j] != name@,
        decreases names@.len() - i,
    {
        if same_text(names[i].as_str(), name) {
            assert(texts(names@)[i as int] == name@);
            return true;
        }
        i += 1;
    }
    false
}

/// Whether a vertex is of a type, given the names of the types that are of
/// it.
pub fn coerces_to(vertex: &Vertex, subtypes: &Vec<String>) -> (answer: bool)
    ensures
        answer == is_among(vertex.spec_typename(), texts(subtypes@)),
{
    among(vertex.typename(), subtypes)
}

/// The answers to a coercion for a batch, given the names of the types that
/// are of the target type.
pub fn coerce_all(contexts: &Vec<Option<Vertex>>, subtypes: &Vec<String>) -> (answers: Vec<bool>)
    ensures
        answers@ == coerced(contexts@, texts(subtypes@)),
{
    let mut answers: Vec<bool> = Vec::new();
    let mut i: usize = 0;
    while i < contexts.len()
        invariant
            i <= contexts@.len(),
            answers@.len() == i,
            forall|j: int|
                0 <= j < i ==> #[trigger] answers@[j] == coerced(contexts@, texts(subtypes@))[j],
        decreases contexts@.len() - i,
    {
        let answer = match &contexts[i] {
            Some(vertex) => coerces_to(vertex, subtypes),
            None => false,
        };
        answers.push(answer);
        i += 1;
    }
    assert(answers@ =~= coerced(contexts@, texts(subtypes@)));
    answers
}

} // verus!
