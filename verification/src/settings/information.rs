//! A server's settings about how it is shown to the public: its name, description and tags.
use crate::settings::game_format::{GameFormatView, ServerSettingsGameFormat};
use crate::settings::store_format::{GameSettings, StoreView};
use crate::text::{clone_strings, join, join_strings, split_on, split_string, texts};
use vstd::prelude::*;

verus! {

/// The character that separates a server's tags in the store.
pub const TAGS_SPLITTER: char = ',';

/// A server's settings about how it is shown to the public.
#[derive(Debug)]
pub struct Information {
    /// The `name` setting. Defaults to `A Factorio server`.
    pub name: String,
    /// The `description` setting. Defaults to `A Factorio server`.
    pub description: String,
    /// The `tags` setting. Defaults to no tags.
    pub tags: Vec<String>,
}

/// The meaning of an [`Information`].
pub struct InformationView {
    pub name: Seq<char>,
    pub description: Seq<char>,
    pub tags: Seq<Seq<char>>,
}

impl View for Information {
    type V = InformationView;

    open spec fn view(&self) -> InformationView {
        InformationView { name: self.name@, description: self.description@, tags: texts(self.tags@) }
    }
}

/// The tags of a stored game, read from their stored column.
pub open spec fn stored_tags(column: Seq<char>) -> Seq<Seq<char>> {
    split_on(column, TAGS_SPLITTER)
}

/// The stored column of a list of tags.
pub open spec fn tags_column(tags: Seq<Seq<char>>) -> Seq<char> {
    join(tags, seq![TAGS_SPLITTER])
}

impl Default for Information {
    fn default() -> (r: Self)
        ensures
            r@ == (InformationView {
                name: "A Factorio server"@,
                description: "A Factorio server"@,
                tags: Seq::empty(),
            }),
    {
        let r = Information {
            name: String::from_str("A Factorio server"),
            description: String::from_str("A Factorio server"),
            tags: Vec::new(),
        };
        assert(texts(r.tags@) =~= Seq::empty());
        r
    }
}

impl Information {
    /// Returns the information settings of a `server-settings.json` structure.
    pub fn from_game_format(game_format: &ServerSettingsGameFormat) -> (r: Self)
        ensures
            r@ == (InformationView {
                name: game_format@.name,
                description: game_format@.description,
                tags: game_format@.tags,
            }),
    {
        Information {
            name: game_format.name.clone(),
            description: game_format.description.clone(),
            tags: clone_strings(&game_format.tags),
        }
    }

    /// Writes these settings into a `server-settings.json` structure.
    pub fn to_game_format(&self, game_format: &mut ServerSettingsGameFormat)
        ensures
            final(game_format)@ == (GameFormatView {
                name: self@.name,
                description: self@.description,
                tags: self@.tags,
                ..old(game_format)@
            }),
    {
        game_format.name = self.name.clone();
        game_format.description = self.description.clone();
        game_format.tags = clone_strings(&self.tags);
    }

    /// Returns the information settings of a stored game's settings; the stored tags are split at
    /// each comma.
    pub fn from_store_format(store_format: &GameSettings) -> (r: Self)
        ensures
            r@ == (InformationView {
                name: store_format@.name,
                description: store_format@.description,
                tags: stored_tags(store_format@.tags),
            }),
    {
        Information {
            name: store_format.name.clone(),
            description: store_format.description.clone(),
            tags: split_string(store_format.tags.as_str(), TAGS_SPLITTER),
        }
    }

    /// Writes these settings into a stored game's settings; the tags are joined with commas.
    pub fn to_store_format(&self, store_format: &mut GameSettings)
        ensures
            final(store_format)@ == (StoreView {
                name: self@.name,
                description: self@.description,
                tags: tags_column(self@.tags),
                ..old(store_format)@
            }),
    {
        store_format.name = self.name.clone();
        store_format.description = self.description.clone();
        store_format.tags = join_strings(&self.tags, ",");
        proof {
            reveal_strlit(",");
            assert(","@ =~= seq![TAGS_SPLITTER]);
        }
    }
}

} // verus!
