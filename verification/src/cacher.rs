//! The files of a conversation log, and what a reader makes of its lines.

use vstd::prelude::*;
use vstd::string::*;
use crate::json::{
    items_view, lemma_items_push, parse_json, text_meaning, Json, JsonModel, ParseFailure,
};
use crate::openai_network_types::parsed_view;

verus! {

/// The files that hold one conversation.
#[derive(Debug, Clone, PartialEq, Eq)]
pub struct Cacher {
    pub current_model_file: String,
    pub history_file: String,
    pub tokens_count_file: String,
}

/// Model of a [`Cacher`].
pub struct CacherModel {
    pub current_model_file: Seq<char>,
    pub history_file: Seq<char>,
    pub tokens_count_file: Seq<char>,
}

impl View for Cacher {
    type V = CacherModel;

    open spec fn view(&self) -> CacherModel {
        CacherModel {
            current_model_file: self.current_model_file@,
            history_file: self.history_file@,
            tokens_count_file: self.tokens_count_file@,
        }
    }
}

/// The directory in which named conversations are kept.
pub open spec fn cache_directory() -> Seq<char> {
    "~/Library/Caches/Sublime Text/Cache"@
}

/// The files of the conversation `name` in the cache directory: each file
/// name is prefixed by `name` and an underscore.
pub open spec fn named_layout(name: Seq<char>) -> CacherModel {
    CacherModel {
        current_model_file: cache_directory() + "/"@ + name + "_"@ + "current_assistant.json"@,
        history_file: cache_directory() + "/"@ + name + "_"@ + "chat_history.jl"@,
        tokens_count_file: cache_directory() + "/"@ + name + "_"@ + "tokens_count.json"@,
    }
}

/// The files of a conversation, given the paths inside its directory where
/// its name is an absolute path: those paths, in the order history, model,
/// token count; without them, the files of the conversation `name` in the
/// cache directory.
pub open spec fn placed_layout(
    name: Seq<char>,
    inside: Option<(Seq<char>, Seq<char>, Seq<char>)>,
) -> CacherModel {
    match inside {
        Some(paths) => CacherModel {
            history_file: paths.0,
            current_model_file: paths.1,
            tokens_count_file: paths.2,
        },
        None => named_layout(name),
    }
}

/// The views of three optional paths.
pub open spec fn paths_view(paths: Option<(String, String, String)>) -> Option<
    (Seq<char>, Seq<char>, Seq<char>),
> {
    match paths {
        Some(p) => Some((p.0@, p.1@, p.2@)),
        None => None,
    }
}

/// The views of a list of texts.
pub open spec fn lines_view(lines: Seq<String>) -> Seq<Seq<char>> {
    Seq::new(lines.len(), |i: int| lines[i]@)
}

/// The entries after one more line was read: a line that is a document
/// is kept, any other is passed over.
pub open spec fn kept_entry(
    entries: Seq<JsonModel>,
    parsed: Result<JsonModel, ParseFailure>,
) -> Seq<JsonModel> {
    match parsed {
        Ok(value) => entries.push(value),
        Err(_) => entries,
    }
}

/// The entries that the lines of a log hold: each line that is a JSON
/// document, in order; any other line is passed over.
pub open spec fn readable_entries(lines: Seq<Seq<char>>) -> Seq<JsonModel>
    decreases lines.len(),
{
    if lines.len() == 0 {
        Seq::empty()
    } else {
        kept_entry(readable_entries(lines.drop_last()), text_meaning(lines.last()))
    }
}

/// Calls `std::path::Path::is_absolute` on the text as a path. Nothing is
/// claimed but that an absolute path is not empty.
#[verifier::external_body]
fn is_absolute_path(name: &str) -> (r: bool)
    ensures
        r ==> name@.len() > 0,
{
    std::path::Path::new(name).is_absolute()
}

/// Calls `std::path::PathBuf::join` to name a file in a directory, and
/// hands the path back as text. Nothing is claimed of the text.
#[verifier::external_body]
fn join_path(directory: &str, file: &str) -> (r: String) {
    std::path::PathBuf::from(directory).join(file).to_string_lossy().into_owned()
}

impl Cacher {
    /// The directory in which named conversations are kept.
    pub fn sublime_cache() -> (r: String)
        ensures
            r@ == cache_directory(),
    {
        "~/Library/Caches/Sublime Text/Cache".to_owned()
    }

    /// The files of the conversation `name` in the cache directory.
    pub fn named(name: &str) -> (r: Cacher)
        ensures
            r@ == named_layout(name@),
    {
        let mut prefix = Self::sublime_cache();
        prefix.append("/");
        prefix.append(name);
        prefix.append("_");
        let mut history_file = prefix.clone();
        history_file.append("chat_history.jl");
        let mut current_model_file = prefix.clone();
        current_model_file.append("current_assistant.json");
        let mut tokens_count_file = prefix;
        tokens_count_file.append("tokens_count.json");
        Cacher { current_model_file, history_file, tokens_count_file }
    }

    /// The files of a conversation, given what the path test answered for
    /// its name: for an absolute name the paths of the history, the model
    /// and the token count inside that directory, which are taken as they
    /// are; for any other name nothing, and the files are those of the
    /// conversation `name` in the cache directory.
    pub fn placed(name: &str, inside: Option<(String, String, String)>) -> (r: Cacher)
        ensures
            r@ == placed_layout(name@, paths_view(inside)),
    {
        match inside {
            Some(paths) => Cacher {
                history_file: paths.0,
                current_model_file: paths.1,
                tokens_count_file: paths.2,
            },
            None => Self::named(name),
        }
    }

    /// The files of a conversation: in the directory `name` where that is
    /// an absolute path, else those of the conversation `name` in the cache
    /// directory. Whether a name is an absolute path, and how the path of
    /// a file in a directory is written, is for the platform to say.
    pub fn new(name: &str) -> (r: Cacher)
        ensures
            name@.len() == 0 ==> r@ == named_layout(name@),
    {
        let inside = if is_absolute_path(name) {
            Some(
                (
                    join_path(name, "chat_history.jl"),
                    join_path(name, "current_assistant.json"),
                    join_path(name, "tokens_count.json"),
                ),
            )
        } else {
            None
        };
        Self::placed(name, inside)
    }

    /// Takes what one line of a log parsed to: a document is kept, a
    /// failure is passed over.
    pub fn keep_entry(entries: &mut Vec<Json>, parsed: Result<Json, ParseFailure>)
        ensures
            items_view(final(entries)@) == kept_entry(
                items_view(old(entries)@),
                parsed_view(parsed),
            ),
    {
        match parsed {
            Ok(value) => {
                proof {
                    lemma_items_push(entries@, value);
                }
                entries.push(value);
            },
            Err(_) => {},
        }
    }

    /// The entries that the lines of a log hold.
    pub fn read_entries(lines: &Vec<String>) -> (r: Vec<Json>)
        ensures
            items_view(r@) == readable_entries(lines_view(lines@)),
    {
        let mut entries: Vec<Json> = Vec::new();
        let ghost texts = lines_view(lines@);
        let mut i: usize = 0;
        assert(texts.take(0) =~= Seq::empty());
        assert(items_view(entries@) =~= Seq::empty());
        while i < lines.len()
            invariant
                i <= lines.len(),
                texts == lines_view(lines@),
                items_view(entries@) == readable_entries(texts.take(i as int)),
            decreases lines.len() - i,
        {
            let parsed = parse_json(lines[i].as_str());
            proof {
                assert(texts.take(i + 1).drop_last() =~= texts.take(i as int));
            }
            Self::keep_entry(&mut entries, parsed);
            i = i + 1;
        }
        proof {
            assert(texts.take(i as int) =~= texts);
        }
        entries
    }

    /// The lines of a log that stay when the first `lines_num` are dropped.
    pub fn drop_first(lines: Vec<String>, lines_num: usize) -> (r: Vec<String>)
        ensures
            r@ == if lines_num <= lines.len() {
                lines@.skip(lines_num as int)
            } else {
                Seq::empty()
            },
    {
        let mut lines = lines;
        if lines_num > lines.len() {
            Vec::new()
        } else {
            let ghost all = lines@;
            let rest = lines.split_off(lines_num);
            assert(rest@ =~= all.skip(lines_num as int));
            rest
        }
    }
}

} // verus!
