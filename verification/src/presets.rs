//! Ready-made queries.

use crate::text::same_text;
use vstd::prelude::*;

verus! {

/// The query of the preset `recent-commits`.
pub const RECENT_COMMITS: &'static str = r#"{
  repository {
    commits(limit: $limit) {
      hash @output
      message @output
      author @output
      date @output
    }
  }
}"#;

/// The query of the preset `branches`.
pub const BRANCHES: &'static str = r#"{
  repository {
    branches {
      name @output
      commit {
        hash @output
        message @output
      }
    }
  }
}"#;

/// The query of the preset `tags`.
pub const TAGS: &'static str = r#"{
  repository {
    tags {
      name @output
      message @output
      commit {
        hash @output
      }
    }
  }
}"#;

/// The query of the preset `commits-by-author`.
pub const COMMITS_BY_AUTHOR: &'static str = r#"{
  repository {
    commits {
      author @output @filter(op: "=", value: ["$author"])
      hash @output
      message @output
      date @output
    }
  }
}"#;

/// The query of the preset `search-commits`.
pub const SEARCH_COMMITS: &'static str = r#"{
  repository {
    commits {
      message @output @filter(op: "regex", value: ["$pattern"])
      hash @output
      author @output
      date @output
    }
  }
}"#;

/// A parameter of a preset.
#[derive(Debug, Clone, Copy, PartialEq, Eq)]
pub struct PresetParam {
    pub name: &'static str,
    pub description: &'static str,
    pub required: bool,
    pub default: Option<&'static str>,
    /// If true, the parameter's value is put into the query text itself (an
    /// edge argument such as `limit`). If false, it is handed to the engine
    /// as a query variable (the value of a filter).
    pub inline: bool,
}

/// A named query with its parameters.
#[derive(Debug, Clone, PartialEq, Eq)]
pub struct Preset {
    pub name: &'static str,
    pub description: &'static str,
    pub query: &'static str,
    pub params: Vec<PresetParam>,
}

/// A parameter as a mathematical value.
pub struct ParamView {
    pub name: Seq<char>,
    pub description: Seq<char>,
    pub required: bool,
    pub default: Option<Seq<char>>,
    pub inline: bool,
}

/// A preset as a mathematical value.
pub struct PresetView {
    pub name: Seq<char>,
    pub description: Seq<char>,
    pub query: Seq<char>,
    pub params: Seq<ParamView>,
}

impl View for PresetParam {
    type V = ParamView;

    open spec fn view(&self) -> ParamView {
        ParamView {
            name: self.name@,
            description: self.description@,
            required: self.required,
            default: match self.default {
                Some(text) => Some(text@),
                None => None,
            },
            inline: self.inline,
        }
    }
}

impl View for Preset {
    type V = PresetView;

    open spec fn view(&self) -> PresetView {
        PresetView {
            name: self.name@,
            description: self.description@,
            query: self.query@,
            params: self.params@.map_values(|param: PresetParam| param@),
        }
    }
}

/// The presets, in the order in which they are listed.
pub open spec fn preset_table() -> Seq<PresetView> {
    seq![
        PresetView {
            name: "recent-commits"@,
            description: "Show recent commits"@,
            query: RECENT_COMMITS@,
            params: seq![
                ParamView {
                    name: "limit"@,
                    description: "Maximum number of commits to show"@,
                    required: false,
                    default: Some("10"@),
                    inline: true,
                },
            ],
        },
        PresetView {
            name: "branches"@,
            description: "List all branches with their latest commit"@,
            query: BRANCHES@,
            params: seq![],
        },
        PresetView {
            name: "tags"@,
            description: "List all tags with their commit"@,
            query: TAGS@,
            params: seq![],
        },
        PresetView {
            name: "commits-by-author"@,
            description: "Show commits by a specific author"@,
            query: COMMITS_BY_AUTHOR@,
            params: seq![
                ParamView {
                    name: "author"@,
                    description: "Author name to filter by"@,
                    required: true,
                    default: None,
                    inline: false,
                },
            ],
        },
        PresetView {
            name: "search-commits"@,
            description: "Search commit messages by regex pattern"@,
            query: SEARCH_COMMITS@,
            params: seq![
                ParamView {
                    name: "pattern"@,
                    description: "Regex pattern to search for in commit messages"@,
                    required: true,
                    default: None,
                    inline: false,
                },
            ],
        },
    ]
}

/// Where the table holds a preset of that name: the first such place.
pub open spec fn preset_index(name: Seq<char>) -> Option<int> {
    if preset_table()[0].name == name {
        Some(0)
    } else if preset_table()[1].name == name {
        Some(1)
    } else if preset_table()[2].name == name {
        Some(2)
    } else if preset_table()[3].name == name {
        Some(3)
    } else if preset_table()[4].name == name {
        Some(4)
    } else {
        None
    }
}

/// No two presets have the same name.
pub proof fn lemma_preset_names_differ()
    ensures
        forall|i: int, j: int|
            0 <= i < j < preset_table().len() ==> (#[trigger] preset_table()[i]).name != (
            #[trigger] preset_table()[j]).name,
{
    reveal_strlit("recent-commits");
    reveal_strlit("branches");
    reveal_strlit("tags");
    reveal_strlit("commits-by-author");
    reveal_strlit("search-commits");
    let table = preset_table();
    assert(table[0].name.len() == 14 && table[0].name[0] == 'r');
    assert(table[1].name.len() == 8);
    assert(table[2].name.len() == 4);
    assert(table[3].name.len() == 17);
    assert(table[4].name.len() == 14 && table[4].name[0] == 's');
}

/// The preset at one place of the table.
fn preset_at(index: usize) -> (preset: Preset)
    requires
        index < 5,
    ensures
        preset@ == preset_table()[index as int],
{
    let mut params: Vec<PresetParam> = Vec::new();
    let preset = if index == 0 {
        params.push(
            PresetParam {
                name: "limit",
                description: "Maximum number of commits to show",
                required: false,
                default: Some("10"),
                inline: true,
            },
        );
        Preset {
            name: "recent-commits",
            description: "Show recent commits",
            query: RECENT_COMMITS,
            params,
        }
    } else if index == 1 {
        Preset {
            name: "branches",
            description: "List all branches with their latest commit",
            query: BRANCHES,
            params,
        }
    } else if index == 2 {
        Preset { name: "tags", description: "List all tags with their commit", query: TAGS, params }
    } else if index == 3 {
        params.push(
            PresetParam {
                name: "author",
                description: "Author name to filter by",
                required: true,
                default: None,
                inline: false,
            },
        );
        Preset {
            name: "commits-by-author",
            description: "Show commits by a specific author",
            query: COMMITS_BY_AUTHOR,
            params,
        }
    } else {
        params.push(
            PresetParam {
                name: "pattern",
                description: "Regex pattern to search for in commit messages",
                required: true,
                default: None,
                inline: false,
            },
        );
        Preset {
            name: "search-commits",
            description: "Search commit messages by regex pattern",
            query: SEARCH_COMMITS,
            params,
        }
    };
    assert(preset@.params =~= preset_table()[index as int].params);
    preset
}

/// All presets, in the order of the table.
pub fn all_presets() -> (presets: Vec<Preset>)
    ensures
        presets@.len() == 5,
        presets@.map_values(|preset: Preset| preset@) == preset_table(),
{
    let mut presets: Vec<Preset> = Vec::new();
    let mut i: usize = 0;
    while i < 5
        invariant
            i <= 5,
            presets@.len() == i,
            forall|j: int| 0 <= j < i ==> (#[trigger] presets@[j])@ == preset_table()[j],
        decreases 5 - i,
    {
        presets.push(preset_at(i));
        i += 1;
    }
    assert(presets@.map_values(|preset: Preset| preset@) =~= preset_table());
    presets
}

/// The preset of that name, if there is one.
pub fn find_preset(name: &str) -> (found: Option<Preset>)
    ensures
        match found {
            Some(preset) => preset_index(name@) is Some && preset@ == preset_table()[preset_index(
                name@,
            )->0],
            None => preset_index(name@) is None,
        },
{
    let mut i: usize = 0;
    while i < 5
        invariant
            i <= 5,
            forall|j: int| 0 <= j < i ==> (#[trigger] preset_table()[j]).name != name@,
        decreases 5 - i,
    {
        let preset = preset_at(i);
        if same_text(preset.name, name) {
            return Some(preset);
        }
        i += 1;
    }
    None
}

} // verus!
