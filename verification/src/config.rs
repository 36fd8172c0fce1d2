//! Configuration: the raw object as the host hands it over, and the settings made of it.

use vstd::prelude::*;
use crate::ast::views;
use crate::name_set::NameSet;
use crate::text::{before_first, lowercase_of, lowercased, text_of};

verus! {

/// The configuration object, field by field, as a JSON reader found it. A field that the
/// object lacks is `None`.
#[derive(Clone, Debug, PartialEq, Eq)]
pub struct PluginConfig {
    /// Module specifiers whose imports count as UI components.
    pub libraries: Option<Vec<String>>,
    /// Names that are never annotated, in any case.
    pub excluded: Option<Vec<String>>,
    /// The directory against which paths are made relative.
    pub root: Option<String>,
}

pub struct PluginConfigView {
    pub libraries: Option<Seq<Seq<char>>>,
    pub excluded: Option<Seq<Seq<char>>>,
    pub root: Option<Seq<char>>,
}

/// The texts of an optional list of strings.
pub open spec fn texts_of(list: Option<Vec<String>>) -> Option<Seq<Seq<char>>> {
    match list {
        Some(names) => Some(views(names@)),
        None => None,
    }
}

impl View for PluginConfig {
    type V = PluginConfigView;

    open spec fn view(&self) -> PluginConfigView {
        PluginConfigView {
            libraries: texts_of(self.libraries),
            excluded: texts_of(self.excluded),
            root: text_of(self.root),
        }
    }
}

/// The view of an optional configuration.
pub open spec fn config_view(config: Option<PluginConfig>) -> Option<PluginConfigView> {
    match config {
        Some(c) => Some(c@),
        None => None,
    }
}

/// A name that is the lowercase form of some text.
pub open spec fn is_folded(name: Seq<char>) -> bool {
    exists|text: Seq<char>| name == #[trigger] lowercase_of(text)
}

/// The names of an optional list, as a set.
pub open spec fn named(list: Option<Seq<Seq<char>>>) -> Set<Seq<char>> {
    match list {
        Some(names) => names.to_set(),
        None => Set::empty(),
    }
}

/// The lowercase forms of the names of an optional list, as a set.
pub open spec fn folded(list: Option<Seq<Seq<char>>>) -> Set<Seq<char>> {
    match list {
        Some(names) => names.map_values(|name: Seq<char>| lowercase_of(name)).to_set(),
        None => Set::empty(),
    }
}

/// A directory, unless it is missing or empty.
pub open spec fn nonempty(directory: Option<Seq<char>>) -> Option<Seq<char>> {
    match directory {
        Some(dir) => if dir.len() > 0 {
            Some(dir)
        } else {
            None
        },
        None => None,
    }
}

/// What one transform of one module goes by.
pub struct SettingsView {
    /// Lowercase names; an element or an import binding whose lowercase name is among
    /// them is never annotated.
    pub excluded: Set<Seq<char>>,
    /// The directory that reported paths are relative to, if any; never empty.
    pub working_directory: Option<Seq<char>>,
    /// Module specifiers whose imported bindings count as UI components.
    pub libraries: Set<Seq<char>>,
}

impl SettingsView {
    /// Settings that exclude nothing, track no library and know no working directory.
    pub open spec fn empty() -> SettingsView {
        SettingsView {
            excluded: Set::empty(),
            working_directory: None,
            libraries: Set::empty(),
        }
    }

    /// Every excluded name is a lowercase form, and the working directory is not empty.
    pub open spec fn well_formed(self) -> bool {
        &&& forall|name: Seq<char>| #[trigger] self.excluded.contains(name) ==> is_folded(name)
        &&& self.working_directory matches Some(dir) ==> dir.len() > 0
    }

    /// The settings that a configuration stands for. Without one, they are empty.
    pub open spec fn of(config: Option<PluginConfigView>) -> SettingsView {
        match config {
            Some(c) => SettingsView {
                excluded: folded(c.excluded),
                working_directory: nonempty(c.root),
                libraries: named(c.libraries),
            },
            None => SettingsView::empty(),
        }
    }

    /// Whether `name`, in whatever case, is excluded.
    pub open spec fn excludes(self, name: Seq<char>) -> bool {
        self.excluded.contains(lowercase_of(name))
    }

    /// Whether imports from `source` are tracked: `source` itself is a tracked library, or
    /// its part before the first slash is.
    pub open spec fn tracks(self, source: Seq<char>) -> bool {
        self.libraries.contains(source) || self.libraries.contains(before_first(source, '/'))
    }

    /// These settings with `cwd` as working directory where they have none of their own.
    pub open spec fn or_working_in(self, cwd: Option<Seq<char>>) -> SettingsView {
        SettingsView {
            working_directory: match self.working_directory {
                Some(dir) => Some(dir),
                None => nonempty(cwd),
            },
            ..self
        }
    }
}

/// The settings of one transform. They come from `parse_config` and are only read after;
/// every excluded name in them is a lowercase form, and the working directory is not empty.
pub struct Settings {
    excluded: NameSet,
    working_directory: Option<String>,
    libraries: NameSet,
}

impl View for Settings {
    type V = SettingsView;

    closed spec fn view(&self) -> SettingsView {
        SettingsView {
            excluded: self.excluded@,
            working_directory: text_of(self.working_directory),
            libraries: self.libraries@,
        }
    }
}

impl Settings {
    #[verifier::type_invariant]
    spec fn well_formed(&self) -> bool {
        self@.well_formed()
    }

    /// The excluded names, all lowercase.
    pub fn excluded(&self) -> (names: &NameSet)
        ensures
            names@ == self@.excluded,
    {
        &self.excluded
    }

    /// The working directory, if one is set.
    pub fn working_directory(&self) -> (directory: &Option<String>)
        ensures
            text_of(*directory) == self@.working_directory,
    {
        &self.working_directory
    }

    /// The tracked libraries.
    pub fn libraries(&self) -> (names: &NameSet)
        ensures
            names@ == self@.libraries,
    {
        &self.libraries
    }

    /// These settings with `cwd` as working directory where they have none of their own. An
    /// empty `cwd` counts as none.
    pub fn or_working_in(self, cwd: Option<String>) -> (settings: Settings)
        ensures
            settings@ == self@.or_working_in(text_of(cwd)),
            settings@.well_formed(),
    {
        proof {
            use_type_invariant(&self);
        }
        let Settings { excluded, working_directory, libraries } = self;
        let working_directory = match working_directory {
            Some(dir) => Some(dir),
            None => present(cwd),
        };
        Settings { excluded, working_directory, libraries }
    }
}

/// `directory`, unless it is missing or empty.
fn present(directory: Option<String>) -> (kept: Option<String>)
    ensures
        text_of(kept) == nonempty(text_of(directory)),
{
    match directory {
        Some(dir) => if dir.as_str().is_empty() {
            None
        } else {
            Some(dir)
        },
        None => None,
    }
}

/// The set of the names in `list`.
fn collect(list: &Option<Vec<String>>) -> (set: NameSet)
    ensures
        set@ == named(texts_of(*list)),
{
    let mut set = NameSet::new();
    match list {
        Some(names) => {
            let mut i: usize = 0;
            while i < names.len()
                invariant
                    i <= names@.len(),
                    set@ == views(names@).take(i as int).to_set(),
                decreases names@.len() - i,
            {
                let name = names[i].clone();
                set.insert(name);
                proof {
                    let seen = views(names@).take(i as int);
                    assert(views(names@).take(i + 1) == seen.push(names@[i as int]@));
                    seen.lemma_push_to_set_commute(names@[i as int]@);
                }
                i = i + 1;
            }
            assert(views(names@).take(i as int) == views(names@));
        },
        None => {},
    }
    set
}

/// The set of the lowercase forms of the names in `list`.
fn collect_folded(list: &Option<Vec<String>>) -> (set: NameSet)
    ensures
        set@ == folded(texts_of(*list)),
{
    let mut set = NameSet::new();
    match list {
        Some(names) => {
            let ghost lower = views(names@).map_values(|name: Seq<char>| lowercase_of(name));
            let mut i: usize = 0;
            while i < names.len()
                invariant
                    i <= names@.len(),
                    lower == views(names@).map_values(|name: Seq<char>| lowercase_of(name)),
                    set@ == lower.take(i as int).to_set(),
                decreases names@.len() - i,
            {
                let name = lowercased(names[i].as_str());
                set.insert(name);
                proof {
                    let seen = lower.take(i as int);
                    assert(lower.take(i + 1) == seen.push(lower[i as int]));
                    seen.lemma_push_to_set_commute(lower[i as int]);
                }
                i = i + 1;
            }
            assert(lower.take(i as int) == lower);
        },
        None => {},
    }
    set
}

/// Makes the settings out of the configuration that the host handed over, if it handed one
/// over and it could be read. Excluded names are put in lowercase; an empty root is no root.
/// This never fails: without a configuration the settings are empty.
pub fn parse_config(config: Option<PluginConfig>) -> (settings: Settings)
    ensures
        settings@ == SettingsView::of(config_view(config)),
        settings@.well_formed(),
{
    match config {
        Some(c) => {
            let excluded = collect_folded(&c.excluded);
            let libraries = collect(&c.libraries);
            let working_directory = present(c.root);
            proof {
                lemma_folded_names(texts_of(c.excluded));
            }
            Settings { excluded, working_directory, libraries }
        },
        None => Settings {
            excluded: NameSet::new(),
            working_directory: None,
            libraries: NameSet::new(),
        },
    }
}

/// Every name of `folded(list)` is a lowercase form.
pub proof fn lemma_folded_names(list: Option<Seq<Seq<char>>>)
    ensures
        forall|name: Seq<char>| #[trigger] folded(list).contains(name) ==> is_folded(name),
{
    assert forall|name: Seq<char>| #[trigger] folded(list).contains(name) implies is_folded(
        name,
    ) by {
        let names = list->0;
        let lower = names.map_values(|name: Seq<char>| lowercase_of(name));
        let i = choose|i: int| 0 <= i < lower.len() && lower[i] == name;
        assert(name == lowercase_of(names[i]));
    }
}

} // verus!
