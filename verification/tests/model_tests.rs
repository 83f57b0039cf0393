use trustfall_git_adapter::backend::TagObject;
use trustfall_git_adapter::date::{date_text, Moment, FIRST_SECOND, LAST_SECOND};
use trustfall_git_adapter::naming::{choose_name, name_from_url};
use trustfall_git_adapter::adapter::{among, coerce_all, coerces_to, starting_vertices};
use trustfall_git_adapter::neighbors::{let_through, limit_from_value, Neighbors};
use trustfall_git_adapter::query_input::{choose_source, parse_variable, QuerySource};
use trustfall_git_adapter::properties::{
    commit_date, property_of, resolve_branch_property, resolve_commit_property, resolve_repository_property,
    resolve_tag_property, resolve_vertex_property,
};
use trustfall_git_adapter::schema::{
    lookup_edge, lookup_kind, lookup_property, Edge, Property, VertexKind,
};
use trustfall_git_adapter::tags::{lookup_of, tag_from_lookup, tag_reference, TagLookup};
use trustfall_git_adapter::{
    Branch, BranchRecord, Commit, CommitRecord, ObjectId, RepositoryInfo, Tag, Value, Vertex,
};

fn id_of(first: u8) -> ObjectId {
    let mut bytes = [0u8; 20];
    bytes[0] = first;
    bytes[19] = 0xff;
    ObjectId::from_bytes(bytes)
}

fn some(text: &str) -> Option<String> {
    Some(text.to_string())
}

fn sample_commit() -> Commit {
    Commit::new(CommitRecord {
        id: id_of(0xab),
        message: some("Initial commit"),
        author_name: some("Ann"),
        author_email: some("ann@x.com"),
        committer_name: some("Bob"),
        committer_email: None,
        seconds: 1_705_314_600,
        offset_minutes: 60,
    })
}

#[test]
fn hex_of_an_identifier_has_forty_lowercase_digits() {
    let hex = id_of(0xab).to_hex();
    assert_eq!(hex, "ab000000000000000000000000000000000000ff");
    assert_eq!(hex.len(), 40);
    assert!(hex.chars().all(|c| matches!(c, '0'..='9' | 'a'..='f')));
}

#[test]
fn hex_shows_every_byte_high_half_first() {
    let mut bytes = [0u8; 20];
    for (i, byte) in bytes.iter_mut().enumerate() {
        *byte = (i as u8) * 13 + 1;
    }
    let id = ObjectId::from_bytes(bytes);
    let expected: String = bytes.iter().map(|b| format!("{:02x}", b)).collect();
    assert_eq!(id.to_hex(), expected);
    assert_eq!(id.as_bytes(), &bytes);
    assert_eq!(
        ObjectId::from_bytes([0x0f; 20]).to_hex(),
        "0f0f0f0f0f0f0f0f0f0f0f0f0f0f0f0f0f0f0f0f"
    );
}

#[test]
fn name_from_url_takes_the_last_segment() {
    assert_eq!(name_from_url("https://github.com/user/project.git"), "project");
    assert_eq!(name_from_url("https://github.com/user/project"), "project");
    assert_eq!(name_from_url("git@github.com:user/project.git"), "project");
    assert_eq!(name_from_url("project.git"), "project");
    assert_eq!(name_from_url("project"), "project");
}

#[test]
fn name_from_url_edge_cases() {
    assert_eq!(name_from_url(""), "");
    assert_eq!(name_from_url(".git"), "");
    assert_eq!(name_from_url("https://host/dir/"), "");
    assert_eq!(name_from_url("a/b.git.git"), "b.git");
    assert_eq!(name_from_url("https://example.com/acme/repo.git.git"), "repo.git");
    assert_eq!(name_from_url(".git.git"), ".git");
    assert_eq!(name_from_url("a/b.gitx"), "b.gitx");
    assert_eq!(name_from_url("a/git"), "git");
    assert_eq!(name_from_url("/x/dépôt.git"), "dépôt");
    assert_eq!(name_from_url("a.git/b"), "b");
}

#[test]
fn name_from_url_agrees_with_the_standard_library() {
    for url in ["https://h/a/b.git", "x.git.git.git", "///", "a/.git", "no-slash", "a/b/c.gi"] {
        let expected = url.strip_suffix(".git").unwrap_or(url).rsplit('/').next().unwrap();
        assert_eq!(name_from_url(url), expected);
    }
}

#[test]
fn choose_name_prefers_the_url_then_the_directory() {
    assert_eq!(choose_name(Some("https://h/u/repo.git"), Some("dir")), "repo");
    assert_eq!(choose_name(Some("https://example.com/acme/repo.git.git"), None), "repo.git");
    assert_eq!(choose_name(Some("https://h/u/"), Some("dir")), "");
    assert_eq!(choose_name(Some(""), Some("dir")), "dir");
    assert_eq!(choose_name(Some(""), None), "unknown");
    assert_eq!(choose_name(None, Some("dir")), "dir");
    assert_eq!(choose_name(None, None), "unknown");
}

#[test]
fn date_text_of_the_documented_example() {
    assert_eq!(date_text(1_705_314_600, 0).unwrap(), "2024-01-15T10:30:00+00:00");
}

#[test]
fn date_text_applies_the_offset() {
    assert_eq!(date_text(0, 0).unwrap(), "1970-01-01T00:00:00+00:00");
    assert_eq!(date_text(0, -3600).unwrap(), "1969-12-31T23:00:00-01:00");
    assert_eq!(date_text(1_709_208_000, 19_800).unwrap(), "2024-02-29T17:30:00+05:30");
    assert_eq!(date_text(1_709_208_000, -34_200).unwrap(), "2024-02-29T02:30:00-09:30");
    assert_eq!(date_text(0, 3_599).unwrap(), "1970-01-01T00:59:59+00:59");
    assert_eq!(date_text(0, -59).unwrap(), "1969-12-31T23:59:01-00:00");
}

#[test]
fn date_text_knows_leap_years() {
    assert_eq!(date_text(951_868_800, 0).unwrap(), "2000-03-01T00:00:00+00:00");
    assert_eq!(date_text(951_868_799, 0).unwrap(), "2000-02-29T23:59:59+00:00");
    assert_eq!(date_text(-2_203_891_200, 0).unwrap(), "1900-03-01T00:00:00+00:00");
    assert_eq!(date_text(-2_203_891_201, 0).unwrap(), "1900-02-28T23:59:59+00:00");
    assert_eq!(date_text(68_169_599, 0).unwrap(), "1972-02-28T23:59:59+00:00");
    assert_eq!(date_text(1_735_689_599, 0).unwrap(), "2024-12-31T23:59:59+00:00");
}

#[test]
fn date_text_covers_the_years_one_to_9999() {
    assert_eq!(date_text(FIRST_SECOND, 0).unwrap(), "0001-01-01T00:00:00+00:00");
    assert_eq!(date_text(LAST_SECOND, 0).unwrap(), "9999-12-31T23:59:59+00:00");
    assert_eq!(date_text(FIRST_SECOND - 1, 0), None);
    assert_eq!(date_text(LAST_SECOND + 1, 0), None);
    assert_eq!(date_text(FIRST_SECOND - 1, 1).unwrap(), "0001-01-01T00:00:00+00:00");
    assert_eq!(date_text(LAST_SECOND, 1), None);
    assert_eq!(date_text(i64::MAX, 86_399), None);
    assert_eq!(date_text(i64::MIN, -86_399), None);
}

#[test]
fn moment_at_gives_the_calendar_fields() {
    let moment = Moment::at(1_705_314_600);
    assert_eq!(
        moment,
        Moment { year: 2024, month: 1, day: 15, hour: 10, minute: 30, second: 0 }
    );
    assert_eq!(moment.render(-7_200), "2024-01-15T10:30:00-02:00");
    assert_eq!(
        Moment::at(-1),
        Moment { year: 1969, month: 12, day: 31, hour: 23, minute: 59, second: 59 }
    );
}

#[test]
fn same_instant_gives_the_same_text() {
    let first = date_text(1_600_000_000, 7_200);
    let second = date_text(1_600_000_000, 7_200);
    assert_eq!(first, second);
    assert_eq!(first.unwrap(), "2020-09-13T14:26:40+02:00");
}

#[test]
fn schema_tables_know_every_declared_name() {
    assert_eq!(lookup_kind("Repository"), Some(VertexKind::Repository));
    assert_eq!(lookup_kind("Commit"), Some(VertexKind::Commit));
    assert_eq!(lookup_kind("Branch"), Some(VertexKind::Branch));
    assert_eq!(lookup_kind("Tag"), Some(VertexKind::Tag));
    assert_eq!(lookup_kind("Tree"), None);
    assert_eq!(lookup_kind("commit"), None);
    assert_eq!(
        lookup_property(VertexKind::Repository, "name"),
        Some(Property::RepositoryName)
    );
    assert_eq!(lookup_property(VertexKind::Repository, "hash"), None);
    assert_eq!(lookup_property(VertexKind::Commit, "hash"), Some(Property::CommitHash));
    assert_eq!(lookup_property(VertexKind::Commit, "message"), Some(Property::CommitMessage));
    assert_eq!(lookup_property(VertexKind::Commit, "author"), Some(Property::CommitAuthor));
    assert_eq!(
        lookup_property(VertexKind::Commit, "author_email"),
        Some(Property::CommitAuthorEmail)
    );
    assert_eq!(
        lookup_property(VertexKind::Commit, "committer"),
        Some(Property::CommitCommitter)
    );
    assert_eq!(
        lookup_property(VertexKind::Commit, "committer_email"),
        Some(Property::CommitCommitterEmail)
    );
    assert_eq!(lookup_property(VertexKind::Commit, "date"), Some(Property::CommitDate));
    assert_eq!(lookup_property(VertexKind::Commit, "name"), None);
    assert_eq!(lookup_property(VertexKind::Branch, "name"), Some(Property::BranchName));
    assert_eq!(lookup_property(VertexKind::Tag, "name"), Some(Property::TagName));
    assert_eq!(lookup_property(VertexKind::Tag, "message"), Some(Property::TagMessage));
    assert_eq!(lookup_property(VertexKind::Tag, "tagger_name"), Some(Property::TagTaggerName));
    assert_eq!(
        lookup_property(VertexKind::Tag, "tagger_email"),
        Some(Property::TagTaggerEmail)
    );
    assert_eq!(lookup_property(VertexKind::Tag, "target"), None);
}

#[test]
fn schema_tables_know_every_declared_edge() {
    assert_eq!(lookup_edge(VertexKind::Repository, "commits"), Some(Edge::RepositoryCommits));
    assert_eq!(lookup_edge(VertexKind::Repository, "branches"), Some(Edge::RepositoryBranches));
    assert_eq!(lookup_edge(VertexKind::Repository, "tags"), Some(Edge::RepositoryTags));
    assert_eq!(lookup_edge(VertexKind::Repository, "commit"), None);
    assert_eq!(lookup_edge(VertexKind::Branch, "commit"), Some(Edge::BranchCommit));
    assert_eq!(lookup_edge(VertexKind::Tag, "commit"), Some(Edge::TagCommit));
    assert_eq!(lookup_edge(VertexKind::Commit, "commit"), None);
    assert_eq!(lookup_edge(VertexKind::Branch, "commits"), None);
}

#[test]
fn vertex_accessors_match_the_kind() {
    let repository = Vertex::Repository(RepositoryInfo::new("r".to_string()));
    assert_eq!(repository.typename(), "Repository");
    assert_eq!(repository.kind(), VertexKind::Repository);
    assert_eq!(repository.as_repository().unwrap().name(), "r");
    assert!(repository.as_commit().is_none());
    assert!(repository.as_branch().is_none());
    assert!(repository.as_tag().is_none());
    let commit = Vertex::Commit(sample_commit());
    assert_eq!(commit.typename(), "Commit");
    assert_eq!(commit.as_commit(), Some(&sample_commit()));
    assert!(commit.as_repository().is_none());
    let branch = Vertex::Branch(Branch::new(BranchRecord { name: some("main") }));
    assert_eq!(branch.typename(), "Branch");
    assert_eq!(branch.as_branch().unwrap().inner().name, some("main"));
    let tag = Vertex::Tag(Tag::new("v1".to_string(), id_of(1), None, None, None));
    assert_eq!(tag.typename(), "Tag");
    assert_eq!(tag.kind(), VertexKind::Tag);
    assert_eq!(tag.as_tag().unwrap().name(), "v1");
    assert_eq!(lookup_kind(tag.typename()), Some(tag.kind()));
}

#[test]
fn tag_getters_give_back_what_the_tag_was_made_of() {
    let tag = Tag::new("v1".to_string(), id_of(7), some("release"), some("Ann"), some("ann@x.com"));
    assert_eq!(tag.name(), "v1");
    assert_eq!(tag.target_oid(), id_of(7));
    assert_eq!(tag.message(), Some("release"));
    assert_eq!(tag.tagger_name(), Some("Ann"));
    assert_eq!(tag.tagger_email(), Some("ann@x.com"));
    let light = Tag::new("v0".to_string(), id_of(8), None, None, None);
    assert_eq!(light.message(), None);
    assert_eq!(light.tagger_name(), None);
    assert_eq!(light.tagger_email(), None);
}

#[test]
fn branch_display_name_falls_back() {
    assert_eq!(Branch::new(BranchRecord { name: some("main") }).display_name(), "main");
    assert_eq!(Branch::new(BranchRecord { name: None }).display_name(), "<unnamed>");
}

#[test]
fn repository_property_is_the_name() {
    let vertex = Vertex::Repository(RepositoryInfo::new("project".to_string()));
    assert_eq!(resolve_repository_property(&vertex, "name"), Value::String("project".to_string()));
    assert_eq!(resolve_vertex_property(&vertex, "name"), Value::String("project".to_string()));
}

#[test]
fn branch_property_is_null_without_a_name() {
    let named = Vertex::Branch(Branch::new(BranchRecord { name: some("main") }));
    let unnamed = Vertex::Branch(Branch::new(BranchRecord { name: None }));
    assert_eq!(resolve_branch_property(&named, "name"), Value::String("main".to_string()));
    assert_eq!(resolve_branch_property(&unnamed, "name"), Value::Null);
}

#[test]
fn commit_properties_are_its_fields() {
    let vertex = Vertex::Commit(sample_commit());
    let text = |s: &str| Value::String(s.to_string());
    assert_eq!(
        resolve_commit_property(&vertex, "hash"),
        text("ab000000000000000000000000000000000000ff")
    );
    assert_eq!(resolve_commit_property(&vertex, "message"), text("Initial commit"));
    assert_eq!(resolve_commit_property(&vertex, "author"), text("Ann"));
    assert_eq!(resolve_commit_property(&vertex, "author_email"), text("ann@x.com"));
    assert_eq!(resolve_commit_property(&vertex, "committer"), text("Bob"));
    assert_eq!(resolve_commit_property(&vertex, "committer_email"), Value::Null);
}

#[test]
fn empty_message_is_not_an_absent_message() {
    let mut record = sample_commit().inner().clone();
    record.message = some("");
    let with_empty = Vertex::Commit(Commit::new(record.clone()));
    assert_eq!(resolve_commit_property(&with_empty, "message"), Value::String(String::new()));
    record.message = None;
    let without = Vertex::Commit(Commit::new(record));
    assert_eq!(resolve_commit_property(&without, "message"), Value::Null);
}

#[test]
fn commit_date_is_rendered_at_the_given_offset() {
    let commit = sample_commit();
    assert_eq!(
        commit_date(&commit, 0),
        Value::String("2024-01-15T10:30:00+00:00".to_string())
    );
    assert_eq!(
        commit_date(&commit, 3_600),
        Value::String("2024-01-15T11:30:00+01:00".to_string())
    );
    let mut record = commit.inner().clone();
    record.seconds = i64::MAX;
    assert_eq!(commit_date(&Commit::new(record), 0), Value::Null);
}

#[test]
fn commit_date_in_local_time_has_the_documented_shape() {
    let vertex = Vertex::Commit(sample_commit());
    let first = resolve_commit_property(&vertex, "date");
    let second = resolve_commit_property(&vertex, "date");
    assert_eq!(first, second);
    match first {
        Value::String(text) => {
            let bytes = text.as_bytes();
            assert_eq!(bytes.len(), 25);
            assert_eq!(bytes[4], b'-');
            assert_eq!(bytes[7], b'-');
            assert_eq!(bytes[10], b'T');
            assert_eq!(bytes[13], b':');
            assert_eq!(bytes[16], b':');
            assert!(bytes[19] == b'+' || bytes[19] == b'-');
            assert_eq!(bytes[22], b':');
        }
        other => panic!("expected text, got {:?}", other),
    }
}

#[test]
fn tag_properties_are_its_fields() {
    let annotated = Vertex::Tag(Tag::new(
        "v1".to_string(),
        id_of(1),
        some("release"),
        some("Ann"),
        some("ann@x.com"),
    ));
    let text = |s: &str| Value::String(s.to_string());
    assert_eq!(resolve_tag_property(&annotated, "name"), text("v1"));
    assert_eq!(resolve_tag_property(&annotated, "message"), text("release"));
    assert_eq!(resolve_tag_property(&annotated, "tagger_name"), text("Ann"));
    assert_eq!(resolve_tag_property(&annotated, "tagger_email"), text("ann@x.com"));
    let light = Vertex::Tag(Tag::new("v0".to_string(), id_of(2), None, None, None));
    assert_eq!(resolve_tag_property(&light, "name"), text("v0"));
    assert_eq!(resolve_tag_property(&light, "message"), Value::Null);
    assert_eq!(resolve_tag_property(&light, "tagger_name"), Value::Null);
    assert_eq!(resolve_tag_property(&light, "tagger_email"), Value::Null);
}

#[test]
fn annotated_lookup_gives_a_tag_with_its_metadata() {
    let object = TagObject {
        message: some("release"),
        tagger_name: some("Ann"),
        tagger_email: some("ann@x.com"),
        target: Some(id_of(3)),
    };
    let tag = tag_from_lookup("v1".to_string(), TagLookup::Annotated(object)).unwrap();
    assert_eq!(
        tag,
        Tag::new("v1".to_string(), id_of(3), some("release"), some("Ann"), some("ann@x.com"))
    );
}

#[test]
fn lightweight_lookup_gives_a_tag_without_metadata() {
    let tag = tag_from_lookup("v0".to_string(), TagLookup::Lightweight(Some(id_of(4)))).unwrap();
    assert_eq!(tag, Tag::new("v0".to_string(), id_of(4), None, None, None));
}

#[test]
fn lookup_without_a_commit_gives_no_tag() {
    let object = TagObject {
        message: some("points at a tree"),
        tagger_name: some("Ann"),
        tagger_email: None,
        target: None,
    };
    assert_eq!(tag_from_lookup("t".to_string(), TagLookup::Annotated(object)), None);
    assert_eq!(tag_from_lookup("t".to_string(), TagLookup::Lightweight(None)), None);
}

#[test]
fn tag_reference_is_under_refs_tags() {
    assert_eq!(tag_reference("v1"), "refs/tags/v1");
    assert_eq!(tag_reference(""), "refs/tags/");
    assert_eq!(tag_reference("release/1.0"), "refs/tags/release/1.0");
}

#[test]
fn limit_from_value_reads_integers_only() {
    assert_eq!(limit_from_value(&Value::Null), None);
    assert_eq!(limit_from_value(&Value::Int64(3)), Some(3));
    assert_eq!(limit_from_value(&Value::Int64(-1)), Some(-1));
    assert_eq!(limit_from_value(&Value::Uint64(7)), Some(7));
    assert_eq!(limit_from_value(&Value::Uint64(u64::MAX)), Some(i64::MAX));
    assert_eq!(limit_from_value(&Value::String("3".to_string())), None);
    assert_eq!(limit_from_value(&Value::Boolean(true)), None);
}

#[test]
fn single_stream_hands_out_its_vertex_once() {
    let vertex = Vertex::Commit(sample_commit());
    let mut stream = Neighbors::Single(Some(vertex.clone()));
    assert_eq!(stream.next_vertex(), Some(vertex));
    assert_eq!(stream.next_vertex(), None);
    assert_eq!(stream.next_vertex(), None);
    let mut empty = Neighbors::none();
    assert_eq!(empty.next_vertex(), None);
}

#[test]
fn value_from_text_is_null_without_text() {
    assert_eq!(Value::from_text(some("x")), Value::String("x".to_string()));
    assert_eq!(Value::from_text(None), Value::Null);
}

#[test]
fn date_text_wants_an_offset_of_less_than_a_day() {
    assert_eq!(date_text(0, 86_400), None);
    assert_eq!(date_text(0, -86_400), None);
    assert_eq!(date_text(0, i32::MAX), None);
    assert_eq!(date_text(0, i32::MIN), None);
    assert_eq!(date_text(0, 86_399).unwrap(), "1970-01-01T23:59:59+23:59");
    assert_eq!(date_text(0, -86_399).unwrap(), "1969-12-31T00:00:01-23:59");
    assert_eq!(commit_date(&sample_commit(), 86_400), Value::Null);
}

#[test]
fn property_of_knows_which_names_a_vertex_has() {
    let commit = Vertex::Commit(sample_commit());
    assert_eq!(property_of(&commit, "author"), Some(Value::String("Ann".to_string())));
    assert_eq!(property_of(&commit, "committer_email"), Some(Value::Null));
    assert_eq!(property_of(&commit, "name"), None);
    assert_eq!(property_of(&commit, ""), None);
    let repository = Vertex::Repository(RepositoryInfo::new("r".to_string()));
    assert_eq!(property_of(&repository, "name"), Some(Value::String("r".to_string())));
    assert_eq!(property_of(&repository, "hash"), None);
    let tag = Vertex::Tag(Tag::new("v1".to_string(), id_of(1), None, None, None));
    assert_eq!(property_of(&tag, "message"), Some(Value::Null));
    assert_eq!(property_of(&tag, "date"), None);
}

#[test]
fn query_source_prefers_inline_text_then_a_file() {
    assert_eq!(choose_source(true, true), QuerySource::Inline);
    assert_eq!(choose_source(true, false), QuerySource::Inline);
    assert_eq!(choose_source(false, true), QuerySource::File);
    assert_eq!(choose_source(false, false), QuerySource::Stdin);
}

#[test]
fn variables_are_split_at_the_first_equals_sign() {
    let pair = |name: &str, value: &str| Some((name.to_string(), value.to_string()));
    assert_eq!(parse_variable("author=Ann"), pair("author", "Ann"));
    assert_eq!(parse_variable("a=b=c"), pair("a", "b=c"));
    assert_eq!(parse_variable("=value"), pair("", "value"));
    assert_eq!(parse_variable("name="), pair("name", ""));
    assert_eq!(parse_variable("="), pair("", ""));
    assert_eq!(parse_variable("no-sign"), None);
    assert_eq!(parse_variable(""), None);
    assert_eq!(parse_variable("é=ü"), pair("é", "ü"));
    for entry in ["x=1", "==", "plain", "k=v=w="] {
        let expected = entry.split_once("=").map(|(n, v)| (n.to_string(), v.to_string()));
        assert_eq!(parse_variable(entry), expected);
    }
}

#[test]
fn a_read_commit_is_let_through_while_the_limit_admits_it() {
    let commit = sample_commit();
    assert_eq!(let_through(Some(2), Some(commit.clone())), (Some(1), Some(commit.clone())));
    assert_eq!(let_through(Some(1), Some(commit.clone())), (Some(0), Some(commit.clone())));
    assert_eq!(let_through(None, Some(commit.clone())), (None, Some(commit.clone())));
    assert_eq!(let_through(Some(0), Some(commit.clone())), (Some(0), None));
    assert_eq!(let_through(Some(2), None), (Some(2), None));
    assert_eq!(let_through(Some(0), None), (Some(0), None));
    assert_eq!(let_through(None, None), (None, None));
    assert_eq!(
        let_through(Some(u64::MAX), Some(commit.clone())),
        (Some(u64::MAX - 1), Some(commit))
    );
}

#[test]
fn coercion_is_membership_among_the_subtypes() {
    let names = vec!["Commit".to_string(), "Tag".to_string()];
    assert!(among("Commit", &names));
    assert!(among("Tag", &names));
    assert!(!among("Branch", &names));
    assert!(!among("commit", &names));
    assert!(!among("Commit", &Vec::new()));
    let commit = Vertex::Commit(sample_commit());
    let branch = Vertex::Branch(Branch::new(BranchRecord { name: None }));
    assert!(coerces_to(&commit, &names));
    assert!(!coerces_to(&branch, &names));
    let contexts = vec![Some(branch), None, Some(commit)];
    assert_eq!(coerce_all(&contexts, &names), vec![false, false, true]);
    assert_eq!(coerce_all(&contexts, &Vec::new()), vec![false, false, false]);
    assert_eq!(coerce_all(&Vec::new(), &names), Vec::<bool>::new());
}

#[test]
fn starting_vertices_are_the_one_repository_under_its_name() {
    let named = |vertices: Vec<Vertex>| {
        assert_eq!(vertices.len(), 1);
        vertices[0].as_repository().unwrap().name().to_string()
    };
    assert_eq!(named(starting_vertices(Some("https://h/acme/repo.git"), Some("dir"))), "repo");
    assert_eq!(named(starting_vertices(Some("https://h/acme/repo.git.git"), None)), "repo.git");
    assert_eq!(named(starting_vertices(Some(""), Some("dir"))), "dir");
    assert_eq!(named(starting_vertices(None, Some("dir"))), "dir");
    assert_eq!(named(starting_vertices(None, None)), "unknown");
}

#[test]
fn a_tag_object_makes_the_tag_annotated() {
    let object = || TagObject {
        message: some("release"),
        tagger_name: some("Ann"),
        tagger_email: some("ann@x.com"),
        target: Some(id_of(3)),
    };
    let annotated = tag_from_lookup("v1".to_string(), lookup_of(Some(object()), Some(id_of(9))));
    assert_eq!(
        annotated,
        Some(Tag::new("v1".to_string(), id_of(3), some("release"), some("Ann"), some("ann@x.com")))
    );
    let same = tag_from_lookup("v1".to_string(), lookup_of(Some(object()), None));
    assert_eq!(same, annotated);
    let light = tag_from_lookup("v0".to_string(), lookup_of(None, Some(id_of(9))));
    assert_eq!(light, Some(Tag::new("v0".to_string(), id_of(9), None, None, None)));
    assert_eq!(tag_from_lookup("v0".to_string(), lookup_of(None, None)), None);
    let mut treeish = object();
    treeish.target = None;
    assert_eq!(tag_from_lookup("t".to_string(), lookup_of(Some(treeish), Some(id_of(9)))), None);
}
