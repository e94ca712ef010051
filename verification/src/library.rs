//! The game library (`Forge_Database.json`): entries, the database, and the
//! rules that merge scanned metadata and manual edits into it.
use vstd::prelude::*;

use crate::assoc::{
    assoc_find, assoc_get, assoc_insert, assoc_remove, assoc_view, has_key, key_index,
    keys_unique, lemma_view_at,
};
use crate::text::{
    chars_eq, chars_of, eq_ignore_ascii_case, str_eq, str_eq_ignore_ascii_case, string_from_chars,
    to_lowercase, to_lowercase_spec, to_owned_string, trim, trim_str,
};

verus! {

/// One library entry. `locked_fields` names the fields the user saved by
/// hand; a metadata scan never changes a locked field again.
#[derive(Debug, Clone)]
pub struct ForgeLibraryEntry {
    pub title: String,
    pub genre: String,
    pub release_year: String,
    pub developer: String,
    pub publisher: String,
    pub cover_url: String,
    /// Transparent PNG game logo, distinct from the cover art.
    pub logo_url: String,
    pub twitch_id: String,
    pub kick_id: String,
    pub igdb_id: String,
    pub steam_id: String,
    pub rawg_id: String,
    pub discord_app_id: String,
    pub gog_id: String,
    pub itch_id: String,
    pub sgdb_id: String,
    pub xbox_title_id: String,
    pub epic_id: String,
    pub executables: String,
    pub locked_fields: Vec<String>,
}

/// The text fields of a library entry.
#[derive(Debug, Clone, Copy, PartialEq, Eq, Structural)]
pub enum EntryField {
    Title,
    Genre,
    ReleaseYear,
    Developer,
    Publisher,
    CoverUrl,
    LogoUrl,
    TwitchId,
    KickId,
    IgdbId,
    SteamId,
    RawgId,
    DiscordAppId,
    GogId,
    ItchId,
    SgdbId,
    XboxTitleId,
    EpicId,
    Executables,
}

/// The JSON name of a field.
pub open spec fn field_name(f: EntryField) -> Seq<char> {
    match f {
        EntryField::Title => "title"@,
        EntryField::Genre => "genre"@,
        EntryField::ReleaseYear => "release_year"@,
        EntryField::Developer => "developer"@,
        EntryField::Publisher => "publisher"@,
        EntryField::CoverUrl => "cover_url"@,
        EntryField::LogoUrl => "logo_url"@,
        EntryField::TwitchId => "twitch_id"@,
        EntryField::KickId => "kick_id"@,
        EntryField::IgdbId => "igdb_id"@,
        EntryField::SteamId => "steam_id"@,
        EntryField::RawgId => "rawg_id"@,
        EntryField::DiscordAppId => "discord_app_id"@,
        EntryField::GogId => "gog_id"@,
        EntryField::ItchId => "itch_id"@,
        EntryField::SgdbId => "sgdb_id"@,
        EntryField::XboxTitleId => "xbox_title_id"@,
        EntryField::EpicId => "epic_id"@,
        EntryField::Executables => "executables"@,
    }
}

/// The text of field `f` of `e`.
pub open spec fn entry_field(e: ForgeLibraryEntry, f: EntryField) -> Seq<char> {
    match f {
        EntryField::Title => e.title@,
        EntryField::Genre => e.genre@,
        EntryField::ReleaseYear => e.release_year@,
        EntryField::Developer => e.developer@,
        EntryField::Publisher => e.publisher@,
        EntryField::CoverUrl => e.cover_url@,
        EntryField::LogoUrl => e.logo_url@,
        EntryField::TwitchId => e.twitch_id@,
        EntryField::KickId => e.kick_id@,
        EntryField::IgdbId => e.igdb_id@,
        EntryField::SteamId => e.steam_id@,
        EntryField::RawgId => e.rawg_id@,
        EntryField::DiscordAppId => e.discord_app_id@,
        EntryField::GogId => e.gog_id@,
        EntryField::ItchId => e.itch_id@,
        EntryField::SgdbId => e.sgdb_id@,
        EntryField::XboxTitleId => e.xbox_title_id@,
        EntryField::EpicId => e.epic_id@,
        EntryField::Executables => e.executables@,
    }
}

/// The fields a metadata scan can fill, in scan order — the only fields a
/// manual save locks.
pub open spec fn scannable_fields() -> Seq<EntryField> {
    seq![
        EntryField::Genre,
        EntryField::ReleaseYear,
        EntryField::Developer,
        EntryField::Publisher,
        EntryField::CoverUrl,
        EntryField::LogoUrl,
        EntryField::IgdbId,
        EntryField::RawgId,
        EntryField::SgdbId,
        EntryField::SteamId,
        EntryField::GogId,
        EntryField::TwitchId,
        EntryField::KickId,
    ]
}

/// The character views of a list of strings.
pub open spec fn string_views(v: Seq<String>) -> Seq<Seq<char>> {
    v.map_values(|s: String| s@)
}

/// The user locked field `name` of `e`.
pub open spec fn is_locked(e: ForgeLibraryEntry, name: Seq<char>) -> bool {
    string_views(e.locked_fields@).contains(name)
}

/// A scanned value fills a field only when the field is empty, the scanned
/// value is not, and the user has not locked the field.
pub open spec fn fill(current: Seq<char>, scanned: Seq<char>, locked: bool) -> Seq<char> {
    if current.len() == 0 && scanned.len() > 0 && !locked {
        scanned
    } else {
        current
    }
}

/// `out` is `existing` with the empty, unlocked scannable fields filled
/// from `fetched`; nothing else changes.
pub open spec fn merged_from(existing: ForgeLibraryEntry, fetched: ForgeLibraryEntry, out: ForgeLibraryEntry) -> bool {
    &&& forall|f: EntryField| #[trigger]
        entry_field(out, f) == if scannable_fields().contains(f) {
            fill(entry_field(existing, f), entry_field(fetched, f), is_locked(existing, field_name(f)))
        } else {
            entry_field(existing, f)
        }
    &&& out.locked_fields@ == existing.locked_fields@
}

/// Every text field of `e` is empty and nothing is locked.
pub open spec fn entry_is_blank(e: ForgeLibraryEntry) -> bool {
    &&& forall|f: EntryField| (#[trigger] entry_field(e, f)).len() == 0
    &&& e.locked_fields@.len() == 0
}

impl Default for ForgeLibraryEntry {
    fn default() -> (r: Self)
        ensures
            entry_is_blank(r),
    {
        ForgeLibraryEntry {
            title: String::new(),
            genre: String::new(),
            release_year: String::new(),
            developer: String::new(),
            publisher: String::new(),
            cover_url: String::new(),
            logo_url: String::new(),
            twitch_id: String::new(),
            kick_id: String::new(),
            igdb_id: String::new(),
            steam_id: String::new(),
            rawg_id: String::new(),
            discord_app_id: String::new(),
            gog_id: String::new(),
            itch_id: String::new(),
            sgdb_id: String::new(),
            xbox_title_id: String::new(),
            epic_id: String::new(),
            executables: String::new(),
            locked_fields: Vec::new(),
        }
    }
}

/// The fields a metadata scan can fill, in scan order.
pub fn scannable_field_list() -> (r: Vec<EntryField>)
    ensures
        r@ == scannable_fields(),
{
    let v = vec![
        EntryField::Genre,
        EntryField::ReleaseYear,
        EntryField::Developer,
        EntryField::Publisher,
        EntryField::CoverUrl,
        EntryField::LogoUrl,
        EntryField::IgdbId,
        EntryField::RawgId,
        EntryField::SgdbId,
        EntryField::SteamId,
        EntryField::GogId,
        EntryField::TwitchId,
        EntryField::KickId,
    ];
    assert(v@ =~= scannable_fields());
    v
}

/// The JSON name of `f`.
pub fn field_name_str(f: EntryField) -> (r: &'static str)
    ensures
        r@ == field_name(f),
{
    match f {
        EntryField::Title => "title",
        EntryField::Genre => "genre",
        EntryField::ReleaseYear => "release_year",
        EntryField::Developer => "developer",
        EntryField::Publisher => "publisher",
        EntryField::CoverUrl => "cover_url",
        EntryField::LogoUrl => "logo_url",
        EntryField::TwitchId => "twitch_id",
        EntryField::KickId => "kick_id",
        EntryField::IgdbId => "igdb_id",
        EntryField::SteamId => "steam_id",
        EntryField::RawgId => "rawg_id",
        EntryField::DiscordAppId => "discord_app_id",
        EntryField::GogId => "gog_id",
        EntryField::ItchId => "itch_id",
        EntryField::SgdbId => "sgdb_id",
        EntryField::XboxTitleId => "xbox_title_id",
        EntryField::EpicId => "epic_id",
        EntryField::Executables => "executables",
    }
}

/// Every text field, in declaration order.
pub fn all_entry_fields() -> (r: Vec<EntryField>)
    ensures
        forall|f: EntryField| r@.contains(f),
{
    let v = vec![
        EntryField::Title,
        EntryField::Genre,
        EntryField::ReleaseYear,
        EntryField::Developer,
        EntryField::Publisher,
        EntryField::CoverUrl,
        EntryField::LogoUrl,
        EntryField::TwitchId,
        EntryField::KickId,
        EntryField::IgdbId,
        EntryField::SteamId,
        EntryField::RawgId,
        EntryField::DiscordAppId,
        EntryField::GogId,
        EntryField::ItchId,
        EntryField::SgdbId,
        EntryField::XboxTitleId,
        EntryField::EpicId,
        EntryField::Executables,
    ];
    assert forall|f: EntryField| v@.contains(f) by {
        match f {
            EntryField::Title => assert(v@[0] == f),
            EntryField::Genre => assert(v@[1] == f),
            EntryField::ReleaseYear => assert(v@[2] == f),
            EntryField::Developer => assert(v@[3] == f),
            EntryField::Publisher => assert(v@[4] == f),
            EntryField::CoverUrl => assert(v@[5] == f),
            EntryField::LogoUrl => assert(v@[6] == f),
            EntryField::TwitchId => assert(v@[7] == f),
            EntryField::KickId => assert(v@[8] == f),
            EntryField::IgdbId => assert(v@[9] == f),
            EntryField::SteamId => assert(v@[10] == f),
            EntryField::RawgId => assert(v@[11] == f),
            EntryField::DiscordAppId => assert(v@[12] == f),
            EntryField::GogId => assert(v@[13] == f),
            EntryField::ItchId => assert(v@[14] == f),
            EntryField::SgdbId => assert(v@[15] == f),
            EntryField::XboxTitleId => assert(v@[16] == f),
            EntryField::EpicId => assert(v@[17] == f),
            EntryField::Executables => assert(v@[18] == f),
        }
    }
    v
}

impl ForgeLibraryEntry {
    /// Field `f`.
    pub fn field(&self, f: EntryField) -> (r: &String)
        ensures
            r@ == entry_field(*self, f),
    {
        match f {
            EntryField::Title => &self.title,
            EntryField::Genre => &self.genre,
            EntryField::ReleaseYear => &self.release_year,
            EntryField::Developer => &self.developer,
            EntryField::Publisher => &self.publisher,
            EntryField::CoverUrl => &self.cover_url,
            EntryField::LogoUrl => &self.logo_url,
            EntryField::TwitchId => &self.twitch_id,
            EntryField::KickId => &self.kick_id,
            EntryField::IgdbId => &self.igdb_id,
            EntryField::SteamId => &self.steam_id,
            EntryField::RawgId => &self.rawg_id,
            EntryField::DiscordAppId => &self.discord_app_id,
            EntryField::GogId => &self.gog_id,
            EntryField::ItchId => &self.itch_id,
            EntryField::SgdbId => &self.sgdb_id,
            EntryField::XboxTitleId => &self.xbox_title_id,
            EntryField::EpicId => &self.epic_id,
            EntryField::Executables => &self.executables,
        }
    }

    /// Sets field `f` to `v`, leaving every other field as it was.
    pub fn set_field(&mut self, f: EntryField, v: String)
        ensures
            entry_field(*final(self), f) == v@,
            forall|g: EntryField| g != f ==> #[trigger] entry_field(*final(self), g) == entry_field(*old(self), g),
            final(self).locked_fields == old(self).locked_fields,
    {
        match f {
            EntryField::Title => self.title = v,
            EntryField::Genre => self.genre = v,
            EntryField::ReleaseYear => self.release_year = v,
            EntryField::Developer => self.developer = v,
            EntryField::Publisher => self.publisher = v,
            EntryField::CoverUrl => self.cover_url = v,
            EntryField::LogoUrl => self.logo_url = v,
            EntryField::TwitchId => self.twitch_id = v,
            EntryField::KickId => self.kick_id = v,
            EntryField::IgdbId => self.igdb_id = v,
            EntryField::SteamId => self.steam_id = v,
            EntryField::RawgId => self.rawg_id = v,
            EntryField::DiscordAppId => self.discord_app_id = v,
            EntryField::GogId => self.gog_id = v,
            EntryField::ItchId => self.itch_id = v,
            EntryField::SgdbId => self.sgdb_id = v,
            EntryField::XboxTitleId => self.xbox_title_id = v,
            EntryField::EpicId => self.epic_id = v,
            EntryField::Executables => self.executables = v,
        }
    }

    /// Whether the user locked the field named `name`.
    pub fn has_lock(&self, name: &str) -> (r: bool)
        ensures
            r == is_locked(*self, name@),
    {
        let mut i: usize = 0;
        while i < self.locked_fields.len()
            invariant
                i <= self.locked_fields@.len(),
                forall|j: int| 0 <= j < i ==> (#[trigger] self.locked_fields@[j])@ != name@,
            decreases self.locked_fields@.len() - i,
        {
            if str_eq(self.locked_fields[i].as_str(), name) {
                proof {
                    assert(string_views(self.locked_fields@)[i as int] == name@);
                }
                return true;
            }
            i += 1;
        }
        proof {
            if string_views(self.locked_fields@).contains(name@) {
                let j = choose|j: int| 0 <= j < string_views(self.locked_fields@).len() && string_views(self.locked_fields@)[j] == name@;
                assert(self.locked_fields@[j]@ == name@);
            }
        }
        false
    }
}

/// Fills the empty fields of `existing` from `fetched` — except fields the
/// user has locked, which are never touched even when empty. User-set
/// values always win.
pub fn merge_entry(existing: ForgeLibraryEntry, fetched: &ForgeLibraryEntry) -> (r: ForgeLibraryEntry)
    ensures
        merged_from(existing, *fetched, r),
{
    let ghost ex = existing;
    let mut e = existing;
    let fields = scannable_field_list();
    let mut i: usize = 0;
    while i < fields.len()
        invariant
            fields@ == scannable_fields(),
            i <= fields@.len(),
            e.locked_fields == ex.locked_fields,
            forall|g: EntryField| #[trigger]
                entry_field(e, g) == if fields@.take(i as int).contains(g) {
                    fill(entry_field(ex, g), entry_field(*fetched, g), is_locked(ex, field_name(g)))
                } else {
                    entry_field(ex, g)
                },
        decreases fields@.len() - i,
    {
        let f = fields[i];
        let cur_empty = e.field(f).as_str().is_empty();
        let new_nonempty = !fetched.field(f).as_str().is_empty();
        let locked = e.has_lock(field_name_str(f));
        let ghost before = e;
        if cur_empty && new_nonempty && !locked {
            let v = fetched.field(f).clone();
            e.set_field(f, v);
        }
        proof {
            let pre0 = fields@.take(i as int);
            let pre1 = fields@.take(i + 1);
            assert(pre1 =~= pre0.push(f));
            assert forall|g: EntryField| #[trigger]
                entry_field(e, g) == if pre1.contains(g) {
                    fill(entry_field(ex, g), entry_field(*fetched, g), is_locked(ex, field_name(g)))
                } else {
                    entry_field(ex, g)
                } by {
                if g == f {
                    assert(pre1[i as int] == g);
                    if pre0.contains(g) {
                        let j = choose|j: int| 0 <= j < pre0.len() && #[trigger] pre0[j] == g;
                        assert(fields@[j] == fields@[i as int]);
                    }
                } else {
                    if pre1.contains(g) {
                        let j = choose|j: int| 0 <= j < pre1.len() && #[trigger] pre1[j] == g;
                        assert(pre0[j] == g);
                    }
                    if pre0.contains(g) {
                        let j = choose|j: int| 0 <= j < pre0.len() && #[trigger] pre0[j] == g;
                        assert(pre1[j] == g);
                    }
                }
            }
        }
        i += 1;
    }
    proof {
        assert(fields@.take(fields@.len() as int) =~= fields@);
    }
    e
}

} // verus!

verus! {

/// The library database: processes the scanner ignores, processes mapped to
/// titles, and the library keyed by title. Keys of `listed_apps` and
/// `library` are distinct (see `wf`).
#[derive(Debug, Clone)]
pub struct ForgeDatabase {
    pub delisted_apps: Vec<String>,
    pub listed_apps: Vec<(String, String)>,
    pub library: Vec<(String, ForgeLibraryEntry)>,
}

/// A JSON value of a library-entry edit: a string, a list of strings, or
/// anything else.
#[derive(Debug, Clone)]
pub enum FieldValue {
    Text(String),
    TextList(Vec<String>),
    Other,
}

/// Two titles name the same game: equal once trimmed, ignoring ASCII case.
pub open spec fn title_matches(key: Seq<char>, title: Seq<char>) -> bool {
    eq_ignore_ascii_case(trim(key), trim(title))
}

/// Position of the first key of `lib` naming the same game as `title`.
pub open spec fn first_match<V>(lib: Seq<(String, V)>, title: Seq<char>) -> Option<int>
    decreases lib.len(),
{
    if lib.len() == 0 {
        None
    } else {
        match first_match(lib.drop_last(), title) {
            Some(i) => Some(i),
            None => if title_matches(lib.last().0@, title) {
                Some(lib.len() - 1)
            } else {
                None
            },
        }
    }
}

/// The key an edit of `title` lands on: `title` itself when present, else
/// the first key naming the same game.
pub open spec fn library_key_for<V>(lib: Seq<(String, V)>, title: Seq<char>) -> Option<Seq<char>> {
    if has_key(lib, title) {
        Some(title)
    } else {
        match first_match(lib, title) {
            Some(i) => Some(lib[i].0@),
            None => None,
        }
    }
}

/// `s` with every element whose lower-cased form is `key` removed, order
/// kept.
pub open spec fn without_folded(s: Seq<Seq<char>>, key: Seq<char>) -> Seq<Seq<char>>
    decreases s.len(),
{
    if s.len() == 0 {
        s
    } else if to_lowercase_spec(s.last()) == key {
        without_folded(s.drop_last(), key)
    } else {
        without_folded(s.drop_last(), key).push(s.last())
    }
}

/// `e` is a fresh entry for a detected game: its title and executable set,
/// everything else empty.
pub open spec fn is_detected_entry(e: ForgeLibraryEntry, title: Seq<char>, process: Seq<char>) -> bool {
    &&& e.title@ == title
    &&& e.executables@ == process
    &&& forall|f: EntryField|
        f != EntryField::Title && f != EntryField::Executables ==> (#[trigger] entry_field(e, f)).len()
            == 0
    &&& e.locked_fields@.len() == 0
}

/// The entry still lacks the basic metadata a scan provides.
pub open spec fn lacks_metadata(e: ForgeLibraryEntry) -> bool {
    e.genre@.len() == 0 && e.developer@.len() == 0 && e.cover_url@.len() == 0
}

impl ForgeDatabase {
    /// Keys of the maps are distinct.
    pub open spec fn wf(&self) -> bool {
        keys_unique(self.library@) && keys_unique(self.listed_apps@)
    }

    /// The library as a map from title to entry.
    pub open spec fn library_view(&self) -> Map<Seq<char>, ForgeLibraryEntry> {
        assoc_view(self.library@)
    }

    /// The listed apps as a map from process name to title.
    pub open spec fn listed_view(&self) -> Map<Seq<char>, String> {
        assoc_view(self.listed_apps@)
    }

    /// An empty database.
    pub fn new() -> (r: Self)
        ensures
            r.wf(),
            r.delisted_apps@.len() == 0,
            r.listed_apps@.len() == 0,
            r.library@.len() == 0,
    {
        ForgeDatabase { delisted_apps: Vec::new(), listed_apps: Vec::new(), library: Vec::new() }
    }

    /// The entry stored under `title`.
    pub fn library_entry(&self, title: &str) -> (r: Option<&ForgeLibraryEntry>)
        requires
            self.wf(),
        ensures
            r is None <==> !self.library_view().dom().contains(title@),
            r matches Some(e) ==> *e == self.library_view()[title@],
    {
        assoc_get(&self.library, title)
    }

    /// Stores `entry` under `title`, replacing any previous entry.
    pub fn insert_library_entry(&mut self, title: String, entry: ForgeLibraryEntry)
        requires
            old(self).wf(),
        ensures
            final(self).wf(),
            final(self).library_view() == old(self).library_view().insert(title@, entry),
            final(self).delisted_apps == old(self).delisted_apps,
            final(self).listed_apps == old(self).listed_apps,
    {
        assoc_insert(&mut self.library, title, entry);
    }

    /// Removes and returns the entry stored under `title`.
    pub fn remove_library_entry(&mut self, title: &str) -> (r: Option<ForgeLibraryEntry>)
        requires
            old(self).wf(),
        ensures
            final(self).wf(),
            final(self).library_view() == old(self).library_view().remove(title@),
            r is None <==> !old(self).library_view().dom().contains(title@),
            r matches Some(e) ==> e == old(self).library_view()[title@],
            final(self).delisted_apps == old(self).delisted_apps,
            final(self).listed_apps == old(self).listed_apps,
    {
        assoc_remove(&mut self.library, title)
    }

    /// Maps process `process` to `title` (replacing any previous title).
    pub fn insert_listed_app(&mut self, process: String, title: String)
        requires
            old(self).wf(),
        ensures
            final(self).wf(),
            final(self).listed_view() == old(self).listed_view().insert(process@, title),
            final(self).delisted_apps == old(self).delisted_apps,
            final(self).library == old(self).library,
    {
        assoc_insert(&mut self.listed_apps, process, title);
    }

    /// The title listed for `process`.
    pub fn listed_title(&self, process: &str) -> (r: Option<&String>)
        requires
            self.wf(),
        ensures
            r is None <==> !self.listed_view().dom().contains(process@),
            r matches Some(t) ==> *t == self.listed_view()[process@],
    {
        assoc_get(&self.listed_apps, process)
    }
}

impl Default for ForgeDatabase {
    fn default() -> (r: Self)
        ensures
            r.wf(),
            r.delisted_apps@.len() == 0,
            r.listed_apps@.len() == 0,
            r.library@.len() == 0,
    {
        ForgeDatabase::new()
    }
}

/// The existing library key for `title`: the exact key when present, else
/// the first key that only differs by surrounding whitespace or ASCII case —
/// so an edit never mints a second entry for the same game.
pub fn find_library_key(db: &ForgeDatabase, title: &str) -> (r: Option<String>)
    ensures
        r matches Some(k) ==> library_key_for(db.library@, title@) == Some(k@),
        r is None ==> library_key_for(db.library@, title@) is None,
{
    if let Some(i) = assoc_find(&db.library, title) {
        return Some(to_owned_string(title));
    }
    let tt = trim_str(title);
    let lib = &db.library;
    let mut i: usize = 0;
    while i < lib.len()
        invariant
            i <= lib@.len(),
            tt@ == trim(title@),
            lib@ == db.library@,
            !has_key(lib@, title@),
            first_match(lib@.take(i as int), title@) is None,
        decreases lib@.len() - i,
    {
        let kt = trim_str(lib[i].0.as_str());
        let m = str_eq_ignore_ascii_case(kt.as_str(), tt.as_str());
        proof {
            assert(lib@.take(i + 1).drop_last() =~= lib@.take(i as int));
            assert(lib@.take(i + 1).last() == lib@[i as int]);
        }
        if m {
            proof {
                assert(title_matches(lib@[i as int].0@, title@));
                assert(first_match(lib@.take(i + 1), title@) == Some(i as int));
                lemma_first_match_prefix(lib@, i as int + 1, title@);
                assert(first_match(db.library@, title@) == Some(i as int));
            }
            let k = lib[i].0.clone();
            assert(k@ == db.library@[i as int].0@);
            return Some(k);
        }
        i += 1;
    }
    proof {
        assert(lib@.take(lib@.len() as int) =~= lib@);
    }
    None
}

/// A match found in a prefix is the first match of the whole list.
proof fn lemma_first_match_prefix<V>(lib: Seq<(String, V)>, k: int, title: Seq<char>)
    requires
        0 <= k <= lib.len(),
        first_match(lib.take(k), title) is Some,
    ensures
        first_match(lib, title) == first_match(lib.take(k), title),
    decreases lib.len() - k,
{
    if k < lib.len() {
        assert(lib.take(k + 1).drop_last() =~= lib.take(k));
        lemma_first_match_prefix(lib, k + 1, title);
    } else {
        assert(lib.take(k) =~= lib);
    }
}

/// Removes a process from the ignore list, comparing case-insensitively:
/// every stored name whose lower-cased form equals the process's lower-cased
/// name goes, and the others stay in order.
pub fn unexile(db: &mut ForgeDatabase, process: &str)
    ensures
        string_views(final(db).delisted_apps@) == without_folded(
            string_views(old(db).delisted_apps@),
            to_lowercase_spec(process@),
        ),
        final(db).listed_apps == old(db).listed_apps,
        final(db).library == old(db).library,
{
    let p = to_lowercase(process);
    let ghost old_views = string_views(db.delisted_apps@);
    let mut kept: Vec<String> = Vec::new();
    let mut i: usize = 0;
    let n = db.delisted_apps.len();
    while i < n
        invariant
            n == db.delisted_apps@.len(),
            i <= n,
            old_views == string_views(db.delisted_apps@),
            p@ == to_lowercase_spec(process@),
            string_views(kept@) == without_folded(old_views.take(i as int), p@),
        decreases n - i,
    {
        proof {
            assert(old_views.take(i + 1).drop_last() =~= old_views.take(i as int));
            assert(old_views.take(i + 1).last() == db.delisted_apps@[i as int]@);
        }
        let folded = to_lowercase(db.delisted_apps[i].as_str());
        if !str_eq(folded.as_str(), p.as_str()) {
            let ghost before = kept@;
            kept.push(db.delisted_apps[i].clone());
            proof {
                assert(string_views(kept@) =~= string_views(before).push(db.delisted_apps@[i as int]@));
            }
        }
        i += 1;
    }
    proof {
        assert(old_views.take(n as int) =~= old_views);
    }
    db.delisted_apps = kept;
}

/// `s` contains a string whose characters are `x`.
pub fn contains_string(s: &Vec<String>, x: &str) -> (r: bool)
    ensures
        r == string_views(s@).contains(x@),
{
    let mut i: usize = 0;
    while i < s.len()
        invariant
            i <= s@.len(),
            forall|j: int| 0 <= j < i ==> (#[trigger] s@[j])@ != x@,
        decreases s@.len() - i,
    {
        if str_eq(s[i].as_str(), x) {
            proof {
                assert(string_views(s@)[i as int] == x@);
            }
            return true;
        }
        i += 1;
    }
    proof {
        if string_views(s@).contains(x@) {
            let j = choose|j: int| 0 <= j < string_views(s@).len() && string_views(s@)[j] == x@;
            assert(s@[j]@ == x@);
        }
    }
    false
}

/// Exiles a game: drops it from the library and adds its lower-cased title
/// to the ignore list (once), so the scanner skips it from now on.
pub fn exile_app(db: &mut ForgeDatabase, game: &str) -> (r: Result<String, String>)
    requires
        old(db).wf(),
    ensures
        final(db).wf(),
        trim(game@).len() == 0 ==> (r matches Err(m) && m@ == "No game title provided"@ && *final(db)
            == *old(db)),
        trim(game@).len() > 0 ==> {
            let g = trim(game@);
            let lower = to_lowercase_spec(g);
            &&& (r matches Ok(m) && m@ == "Exiled \""@ + g + "\""@)
            &&& final(db).library_view() == old(db).library_view().remove(g)
            &&& string_views(final(db).delisted_apps@) == if string_views(
                old(db).delisted_apps@,
            ).contains(lower) {
                string_views(old(db).delisted_apps@)
            } else {
                string_views(old(db).delisted_apps@).push(lower)
            }
            &&& final(db).listed_apps == old(db).listed_apps
        },
{
    let g = trim_str(game);
    if g.as_str().is_empty() {
        return Err(to_owned_string("No game title provided"));
    }
    let _ = db.remove_library_entry(g.as_str());
    let lower = to_lowercase(g.as_str());
    if !contains_string(&db.delisted_apps, lower.as_str()) {
        let ghost before = db.delisted_apps@;
        db.delisted_apps.push(lower);
        proof {
            assert(string_views(db.delisted_apps@) =~= string_views(before).push(
                to_lowercase_spec(g@),
            ));
        }
    }
    proof {
        reveal_strlit("\"");
    }
    let mut msg = chars_of("Exiled \"");
    let gv = chars_of(g.as_str());
    let q = chars_of("\"");
    let ghost m0 = msg@;
    let mut i: usize = 0;
    while i < gv.len()
        invariant
            i <= gv@.len(),
            msg@ == m0 + gv@.take(i as int),
        decreases gv@.len() - i,
    {
        msg.push(gv[i]);
        i += 1;
        assert(msg@ =~= m0 + gv@.take(i as int));
    }
    msg.push(q[0]);
    proof {
        assert(gv@.take(gv@.len() as int) =~= gv@);
        assert(msg@ =~= "Exiled \""@ + g@ + "\""@);
    }
    Ok(string_from_chars(msg.as_slice()))
}

/// Records a newly detected game in the library: a bare entry (title and
/// executable) is added when the title is not there yet. Returns whether an
/// entry was added, and whether the (new or old) entry still lacks the basic
/// metadata a scan provides.
pub fn register_detection(db: &mut ForgeDatabase, title: &str, process: &str) -> (r: (bool, bool))
    requires
        old(db).wf(),
    ensures
        final(db).wf(),
        r.0 == !old(db).library_view().dom().contains(title@),
        r.0 ==> (final(db).library_view().dom().contains(title@) && is_detected_entry(
            final(db).library_view()[title@],
            title@,
            process@,
        ) && final(db).library_view() == old(db).library_view().insert(
            title@,
            final(db).library_view()[title@],
        )),
        !r.0 ==> *final(db) == *old(db),
        r.1 == lacks_metadata(final(db).library_view()[title@]),
        final(db).delisted_apps == old(db).delisted_apps,
        final(db).listed_apps == old(db).listed_apps,
{
    let inserted = match db.library_entry(title) {
        Some(_) => false,
        None => {
            let mut e = ForgeLibraryEntry::default();
            let ghost e0 = e;
            e.set_field(EntryField::Title, to_owned_string(title));
            let ghost e1 = e;
            e.set_field(EntryField::Executables, to_owned_string(process));
            assert forall|f: EntryField|
                f != EntryField::Title && f != EntryField::Executables implies (#[trigger] entry_field(e, f)).len() == 0 by {
                assert(entry_field(e, f) == entry_field(e1, f));
                assert(entry_field(e1, f) == entry_field(e0, f));
            }
            assert(entry_field(e, EntryField::Title) == entry_field(e1, EntryField::Title));
            assert(is_detected_entry(e, title@, process@));
            let ghost ge = e;
            db.insert_library_entry(to_owned_string(title), e);
            assert(db.library_view()[title@] == ge);
            true
        },
    };
    let needs = match db.library_entry(title) {
        Some(e) => e.genre.as_str().is_empty() && e.developer.as_str().is_empty()
            && e.cover_url.as_str().is_empty(),
        None => false,
    };
    (inserted, needs)
}

} // verus!

verus! {

/// The field a body key writes: the `custom_release_year`,
/// `custom_developer` and `custom_publisher` aliases map onto the real
/// fields; every other key names itself.
pub open spec fn body_target(key: Seq<char>) -> Seq<char> {
    if key == "custom_release_year"@ {
        "release_year"@
    } else if key == "custom_developer"@ {
        "developer"@
    } else if key == "custom_publisher"@ {
        "publisher"@
    } else {
        key
    }
}

/// The value the body finally writes to field `name`: that of the last
/// pair (in body order) whose key targets it.
pub open spec fn final_value(body: Seq<(String, FieldValue)>, name: Seq<char>) -> Option<FieldValue>
    decreases body.len(),
{
    if body.len() == 0 {
        None
    } else if body_target(body.last().0@) == name {
        Some(body.last().1)
    } else {
        final_value(body.drop_last(), name)
    }
}

/// The trimmed, non-empty title of an edit body, if it has one.
pub open spec fn body_title(body: Seq<(String, FieldValue)>) -> Option<Seq<char>> {
    if has_key(body, "title"@) {
        match body[key_index(body, "title"@)].1 {
            FieldValue::Text(s) => if trim(s@).len() > 0 {
                Some(trim(s@))
            } else {
                None
            },
            _ => None,
        }
    } else {
        None
    }
}

/// A text field may receive nothing or a string.
pub open spec fn fits_text(v: Option<FieldValue>) -> bool {
    match v {
        None => true,
        Some(FieldValue::Text(_)) => true,
        _ => false,
    }
}

/// `locked_fields` may receive nothing or a list of strings.
pub open spec fn fits_list(v: Option<FieldValue>) -> bool {
    match v {
        None => true,
        Some(FieldValue::TextList(_)) => true,
        _ => false,
    }
}

/// Every value the body writes has the type of the field it writes.
pub open spec fn body_well_typed(body: Seq<(String, FieldValue)>) -> bool {
    &&& forall|f: EntryField|
        f != EntryField::Title ==> fits_text(#[trigger] final_value(body, field_name(f)))
    &&& fits_list(final_value(body, "locked_fields"@))
}

/// Field `f` of an optional entry (empty when there is none).
pub open spec fn field_or_empty(e: Option<ForgeLibraryEntry>, f: EntryField) -> Seq<char> {
    match e {
        Some(x) => entry_field(x, f),
        None => Seq::empty(),
    }
}

/// The locks the entry carries before the edit's own locks are added.
pub open spec fn base_locks(existing: Option<ForgeLibraryEntry>, body: Seq<(String, FieldValue)>) -> Seq<Seq<char>> {
    match final_value(body, "locked_fields"@) {
        Some(FieldValue::TextList(l)) => string_views(l@),
        _ => match existing {
            Some(x) => string_views(x.locked_fields@),
            None => Seq::empty(),
        },
    }
}

/// `locked` extended, in the order of `fields`, with each field the body
/// names that is not locked yet.
pub open spec fn add_locks(locked: Seq<Seq<char>>, body: Seq<(String, FieldValue)>, fields: Seq<EntryField>) -> Seq<Seq<char>>
    decreases fields.len(),
{
    if fields.len() == 0 {
        locked
    } else {
        let l = add_locks(locked, body, fields.drop_last());
        let n = field_name(fields.last());
        if has_key(body, n) && !l.contains(n) {
            l.push(n)
        } else {
            l
        }
    }
}

/// `out` is the entry a manual save of `body` under title `t` produces from
/// `existing`: each field the body writes takes the written string, the
/// title is `t`, the rest is kept, and every scannable field the body names
/// is locked.
pub open spec fn is_upserted(existing: Option<ForgeLibraryEntry>, body: Seq<(String, FieldValue)>, t: Seq<char>, out: ForgeLibraryEntry) -> bool {
    &&& out.title@ == t
    &&& forall|f: EntryField| f != EntryField::Title ==> #[trigger] entry_field(out, f) == match final_value(body, field_name(f)) {
        Some(FieldValue::Text(s)) => s@,
        _ => field_or_empty(existing, f),
    }
    &&& string_views(out.locked_fields@) == add_locks(base_locks(existing, body), body, scannable_fields())
}

/// The entry an edit of title `t` replaces.
pub open spec fn replaced_entry(db: ForgeDatabase, t: Seq<char>) -> Option<ForgeLibraryEntry> {
    match library_key_for(db.library@, t) {
        Some(k) => Some(db.library_view()[k]),
        None => None,
    }
}

/// The library without the entry an edit of title `t` replaces.
pub open spec fn library_without_replaced(db: ForgeDatabase, t: Seq<char>) -> Map<Seq<char>, ForgeLibraryEntry> {
    match library_key_for(db.library@, t) {
        Some(k) => db.library_view().remove(k),
        None => db.library_view(),
    }
}

/// A first match lies inside the list.
proof fn lemma_first_match_in_range<V>(lib: Seq<(String, V)>, title: Seq<char>)
    ensures
        first_match(lib, title) matches Some(i) ==> 0 <= i < lib.len(),
    decreases lib.len(),
{
    if lib.len() > 0 {
        lemma_first_match_in_range(lib.drop_last(), title);
    }
}

/// The key an edit of a title lands on is a key of the library.
pub proof fn lemma_library_key_in_dom<V>(lib: Seq<(String, V)>, title: Seq<char>)
    ensures
        library_key_for(lib, title) matches Some(k) ==> assoc_view(lib).dom().contains(k),
{
    lemma_first_match_in_range(lib, title);
    if !has_key(lib, title) {
        if let Some(i) = first_match(lib, title) {
            assert(has_key(lib, lib[i].0@));
        }
    }
}

/// The field a body key writes.
fn body_target_exec(key: &str) -> (r: Vec<char>)
    ensures
        r@ == body_target(key@),
{
    if str_eq(key, "custom_release_year") {
        chars_of("release_year")
    } else if str_eq(key, "custom_developer") {
        chars_of("developer")
    } else if str_eq(key, "custom_publisher") {
        chars_of("publisher")
    } else {
        chars_of(key)
    }
}

/// The value the body finally writes to field `name`.
fn final_value_exec<'a>(body: &'a Vec<(String, FieldValue)>, name: &str) -> (r: Option<&'a FieldValue>)
    ensures
        r is None <==> final_value(body@, name@) is None,
        r matches Some(x) ==> final_value(body@, name@) == Some(*x),
{
    let nv = chars_of(name);
    let mut i: usize = body.len();
    assert(body@.take(i as int) =~= body@);
    while i > 0
        invariant
            i <= body@.len(),
            nv@ == name@,
            final_value(body@, name@) == final_value(body@.take(i as int), name@),
        decreases i,
    {
        i -= 1;
        let t = body_target_exec(body[i].0.as_str());
        proof {
            assert(body@.take(i + 1).last() == body@[i as int]);
            assert(body@.take(i + 1).drop_last() =~= body@.take(i as int));
        }
        if chars_eq(t.as_slice(), nv.as_slice()) {
            return Some(&body[i].1);
        }
    }
    None
}

/// A copy of a list of strings.
fn clone_strings(v: &Vec<String>) -> (r: Vec<String>)
    ensures
        r@ == v@,
{
    let mut out: Vec<String> = Vec::new();
    let mut i: usize = 0;
    while i < v.len()
        invariant
            i <= v@.len(),
            out@ == v@.take(i as int),
        decreases v@.len() - i,
    {
        out.push(v[i].clone());
        i += 1;
        assert(out@ =~= v@.take(i as int));
    }
    assert(v@.take(v@.len() as int) =~= v@);
    out
}

/// Upserts a library entry from a manual edit (`/list` body). The body must
/// carry a non-blank string `title`; `custom_release_year`,
/// `custom_developer` and `custom_publisher` write the real fields; unknown
/// keys are ignored; the rest of the existing entry is kept. The entry is
/// stored under the trimmed title, replacing any entry whose title differs
/// only by case or surrounding whitespace, and every scannable field the
/// body names is locked against later scans. A refused edit (no title, or
/// a value of the wrong type) leaves the database as it was.
pub fn upsert_library_entry(db: &mut ForgeDatabase, body: &Vec<(String, FieldValue)>) -> (r: Result<String, String>)
    requires
        old(db).wf(),
        keys_unique(body@),
    ensures
        final(db).wf(),
        final(db).delisted_apps == old(db).delisted_apps,
        final(db).listed_apps == old(db).listed_apps,
        body_title(body@) is None ==> (r matches Err(m) && m@ == "title required"@ && *final(db)
            == *old(db)),
        body_title(body@) matches Some(t) ==> {
            &&& !body_well_typed(body@) ==> (r matches Err(m) && m@ == "invalid entry fields"@
                && *final(db) == *old(db))
            &&& body_well_typed(body@) ==> {
                &&& r matches Ok(title) && title@ == t
                &&& final(db).library_view().dom().contains(t)
                &&& is_upserted(replaced_entry(*old(db), t), body@, t, final(db).library_view()[t])
                &&& final(db).library_view() == library_without_replaced(*old(db), t).insert(
                    t,
                    final(db).library_view()[t],
                )
            }
        },
{
    // Title: a non-blank string.
    let t = match assoc_get(body, "title") {
        Some(FieldValue::Text(s)) => trim_str(s.as_str()),
        _ => {
            return Err(to_owned_string("title required"));
        },
    };
    if t.as_str().is_empty() {
        return Err(to_owned_string("title required"));
    }
    proof {
        if has_key(body@, "title"@) {
            lemma_view_at(body@, key_index(body@, "title"@));
        }
    }
    assert(body_title(body@) == Some(t@));

    // Every written value must fit its field (checked before the database
    // is touched, so a refused edit leaves it as it was).
    let fields = all_entry_fields();
    let mut i: usize = 0;
    while i < fields.len()
        invariant
            i <= fields@.len(),
            forall|f: EntryField| fields@.contains(f),
            body_title(body@) == Some(t@),
            *db == *old(db),
            db.wf(),
            forall|j: int| 0 <= j < i ==> fields@[j] != EntryField::Title ==> fits_text(
                #[trigger] final_value(body@, field_name(fields@[j])),
            ),
        decreases fields@.len() - i,
    {
        let f = fields[i];
        if f != EntryField::Title {
            match final_value_exec(body, field_name_str(f)) {
                None => {},
                Some(FieldValue::Text(_)) => {},
                Some(_) => {
                    return Err(to_owned_string("invalid entry fields"));
                },
            }
        }
        i += 1;
    }
    let locks_value = final_value_exec(body, "locked_fields");
    match locks_value {
        None => {},
        Some(FieldValue::TextList(_)) => {},
        Some(_) => {
            return Err(to_owned_string("invalid entry fields"));
        },
    }
    proof {
        assert forall|f: EntryField| f != EntryField::Title implies fits_text(
            #[trigger] final_value(body@, field_name(f)),
        ) by {
            assert(fields@.contains(f));
            let j = choose|j: int| 0 <= j < fields@.len() && fields@[j] == f;
            assert(fields@[j] != EntryField::Title);
        }
    }
    assert(body_well_typed(body@));

    // Take out the entry this edit replaces.
    let ghost old_db = *db;
    let key = find_library_key(db, t.as_str());
    let existing: Option<ForgeLibraryEntry> = match key {
        Some(k) => {
            proof {
                lemma_first_match_in_range(db.library@, t@);
                if !has_key(db.library@, t@) {
                    let i = first_match(db.library@, t@)->0;
                    assert(has_key(db.library@, db.library@[i].0@));
                }
            }
            db.remove_library_entry(k.as_str())
        },
        None => None,
    };
    assert(existing == replaced_entry(old_db, t@));
    assert(db.library_view() == library_without_replaced(old_db, t@));

    // Overlay the written values.
    let mut entry = match existing {
        Some(e) => e,
        None => ForgeLibraryEntry::default(),
    };
    let ghost base = entry;
    let mut i: usize = 0;
    while i < fields.len()
        invariant
            i <= fields@.len(),
            forall|f: EntryField| fields@.contains(f),
            entry.locked_fields == base.locked_fields,
            forall|f: EntryField| #[trigger]
                entry_field(entry, f) == if f != EntryField::Title && fields@.take(i as int).contains(f) {
                    match final_value(body@, field_name(f)) {
                        Some(FieldValue::Text(s)) => s@,
                        _ => entry_field(base, f),
                    }
                } else {
                    entry_field(base, f)
                },
        decreases fields@.len() - i,
    {
        let f = fields[i];
        let ghost before = entry;
        if f != EntryField::Title {
            match final_value_exec(body, field_name_str(f)) {
                Some(FieldValue::Text(s)) => {
                    entry.set_field(f, s.clone());
                },
                _ => {},
            }
        }
        proof {
            let pre0 = fields@.take(i as int);
            let pre1 = fields@.take(i + 1);
            assert(pre1 =~= pre0.push(f));
            assert forall|g: EntryField| #[trigger]
                entry_field(entry, g) == if g != EntryField::Title && pre1.contains(g) {
                    match final_value(body@, field_name(g)) {
                        Some(FieldValue::Text(s)) => s@,
                        _ => entry_field(base, g),
                    }
                } else {
                    entry_field(base, g)
                } by {
                if g == f {
                    assert(pre1[i as int] == g);
                    if pre0.contains(g) {
                        let j = choose|j: int| 0 <= j < pre0.len() && #[trigger] pre0[j] == g;
                        // Each field occurs once in `fields`, so writing it twice is idempotent.
                    }
                } else {
                    if pre1.contains(g) {
                        let j = choose|j: int| 0 <= j < pre1.len() && #[trigger] pre1[j] == g;
                        assert(pre0[j] == g);
                    }
                    if pre0.contains(g) {
                        let j = choose|j: int| 0 <= j < pre0.len() && #[trigger] pre0[j] == g;
                        assert(pre1[j] == g);
                    }
                }
            }
        }
        i += 1;
    }
    proof {
        assert(fields@.take(fields@.len() as int) =~= fields@);
    }
    let ghost pre_title = entry;
    entry.set_field(EntryField::Title, t.clone());
    let ghost post_title = entry;

    // Locks: the written list (or the existing one), plus each scannable
    // field the body names.
    let mut locks: Vec<String> = match locks_value {
        Some(FieldValue::TextList(l)) => clone_strings(l),
        _ => clone_strings(&entry.locked_fields),
    };
    assert(string_views(locks@) == base_locks(existing, body@));
    let scan = scannable_field_list();
    let mut j: usize = 0;
    while j < scan.len()
        invariant
            j <= scan@.len(),
            scan@ == scannable_fields(),
            string_views(locks@) == add_locks(base_locks(existing, body@), body@, scan@.take(j as int)),
        decreases scan@.len() - j,
    {
        let name = field_name_str(scan[j]);
        let ghost before = locks@;
        proof {
            assert(scan@.take(j + 1).drop_last() =~= scan@.take(j as int));
            assert(scan@.take(j + 1).last() == scan@[j as int]);
        }
        if assoc_find(body, name).is_some() && !contains_string(&locks, name) {
            locks.push(to_owned_string(name));
            proof {
                assert(string_views(locks@) =~= string_views(before).push(name@));
            }
        }
        j += 1;
    }
    proof {
        assert(scan@.take(scan@.len() as int) =~= scan@);
    }
    entry.locked_fields = locks;
    let ghost out = entry;
    db.insert_library_entry(t.clone(), entry);
    proof {
        assert(db.library_view()[t@] == out);
        assert forall|f: EntryField| f != EntryField::Title implies #[trigger] entry_field(out, f) == match final_value(body@, field_name(f)) {
            Some(FieldValue::Text(s)) => s@,
            _ => field_or_empty(existing, f),
        } by {
            assert(fields@.contains(f));
            assert(entry_field(post_title, f) == entry_field(pre_title, f));
            assert(entry_field(out, f) == entry_field(post_title, f));
            if existing is None {
                assert(entry_field(base, f) =~= Seq::<char>::empty());
            }
        }
        assert(is_upserted(existing, body@, t@, out));
    }
    Ok(t)
}

/// Takes out of the library the entry a metadata scan of `title` works on:
/// the entry an edit of the trimmed title lands on (or a blank one), with
/// its title set to the trimmed title. A blank title is refused (`None`)
/// and changes nothing. The scanned entry is stored back under the trimmed
/// title with `insert_library_entry`.
pub fn take_scan_entry(db: &mut ForgeDatabase, title: &str) -> (r: Option<(String, ForgeLibraryEntry)>)
    requires
        old(db).wf(),
    ensures
        final(db).wf(),
        trim(title@).len() == 0 ==> r is None && *final(db) == *old(db),
        trim(title@).len() > 0 ==> (r matches Some(p) && {
            let t = trim(title@);
            let prev = replaced_entry(*old(db), t);
            &&& p.0@ == t
            &&& p.1.title@ == t
            &&& forall|f: EntryField|
                f != EntryField::Title ==> #[trigger] entry_field(p.1, f) == field_or_empty(prev, f)
            &&& p.1.locked_fields@ == match prev {
                Some(x) => x.locked_fields@,
                None => Seq::empty(),
            }
            &&& final(db).library_view() == library_without_replaced(*old(db), t)
        }),
        final(db).delisted_apps == old(db).delisted_apps,
        final(db).listed_apps == old(db).listed_apps,
{
    let t = trim_str(title);
    if t.as_str().is_empty() {
        return None;
    }
    let key = match find_library_key(db, t.as_str()) {
        Some(k) => k,
        None => t.clone(),
    };
    proof {
        lemma_library_key_in_dom(db.library@, t@);
        lemma_first_match_in_range(db.library@, t@);
        if library_key_for(db.library@, t@) is None {
            if db.library_view().dom().contains(t@) {
                assert(has_key(db.library@, t@));
            }
        }
    }
    let removed = db.remove_library_entry(key.as_str());
    let mut e = match removed {
        Some(x) => x,
        None => ForgeLibraryEntry::default(),
    };
    let ghost e0 = e;
    e.title = t.clone();
    proof {
        assert forall|f: EntryField| f != EntryField::Title implies #[trigger] entry_field(e, f)
            == field_or_empty(replaced_entry(*old(db), t@), f) by {
            assert(entry_field(e, f) == entry_field(e0, f));
        }
    }
    Some((t, e))
}

// ───────────────────────────── laws ─────────────────────────────

/// A scan never overwrites what the user set: a field that already holds a
/// value, or that the user locked, comes out of a merge unchanged.
pub proof fn law_merge_keeps_user_values(
    existing: ForgeLibraryEntry,
    fetched: ForgeLibraryEntry,
    out: ForgeLibraryEntry,
    f: EntryField,
)
    requires
        merged_from(existing, fetched, out),
        entry_field(existing, f).len() > 0 || is_locked(existing, field_name(f)),
    ensures
        entry_field(out, f) == entry_field(existing, f),
{
    assert(entry_field(out, f) == entry_field(out, f));
}

/// A scan fills every empty, unlocked scannable field for which it found a
/// value.
pub proof fn law_merge_fills_empty_fields(
    existing: ForgeLibraryEntry,
    fetched: ForgeLibraryEntry,
    out: ForgeLibraryEntry,
    f: EntryField,
)
    requires
        merged_from(existing, fetched, out),
        scannable_fields().contains(f),
        entry_field(existing, f).len() == 0,
        !is_locked(existing, field_name(f)),
    ensures
        entry_field(out, f) == entry_field(fetched, f),
{
    assert(entry_field(out, f) == entry_field(out, f));
}

/// Merging the same scan result a second time changes nothing.
pub proof fn law_merge_is_idempotent(
    existing: ForgeLibraryEntry,
    fetched: ForgeLibraryEntry,
    once: ForgeLibraryEntry,
    twice: ForgeLibraryEntry,
)
    requires
        merged_from(existing, fetched, once),
        merged_from(once, fetched, twice),
    ensures
        forall|f: EntryField| #[trigger] entry_field(twice, f) == entry_field(once, f),
        twice.locked_fields@ == once.locked_fields@,
{
    assert forall|f: EntryField| #[trigger] entry_field(twice, f) == entry_field(once, f) by {
        assert(string_views(once.locked_fields@) == string_views(existing.locked_fields@));
    }
}

/// Every scannable field an edit body names ends up locked.
proof fn lemma_add_locks_contains(
    locked: Seq<Seq<char>>,
    body: Seq<(String, FieldValue)>,
    fields: Seq<EntryField>,
    f: EntryField,
)
    requires
        fields.contains(f),
        has_key(body, field_name(f)),
    ensures
        add_locks(locked, body, fields).contains(field_name(f)),
    decreases fields.len(),
{
    let l = add_locks(locked, body, fields.drop_last());
    if fields.last() == f {
        if !l.contains(field_name(f)) {
            assert(l.push(field_name(f))[l.len() as int] == field_name(f));
        }
    } else {
        let i = choose|i: int| 0 <= i < fields.len() && fields[i] == f;
        assert(fields.drop_last()[i] == f);
        lemma_add_locks_contains(locked, body, fields.drop_last(), f);
        if has_key(body, field_name(fields.last())) && !l.contains(field_name(fields.last())) {
            let j = choose|j: int| 0 <= j < l.len() && l[j] == field_name(f);
            assert(l.push(field_name(fields.last()))[j] == field_name(f));
        }
    }
}

/// A manual save sticks: a scannable field the saved body names keeps its
/// saved value through any later scan, even when it was saved empty.
pub proof fn law_manual_edit_survives_scan(
    existing: Option<ForgeLibraryEntry>,
    body: Seq<(String, FieldValue)>,
    t: Seq<char>,
    saved: ForgeLibraryEntry,
    fetched: ForgeLibraryEntry,
    scanned: ForgeLibraryEntry,
    f: EntryField,
)
    requires
        is_upserted(existing, body, t, saved),
        scannable_fields().contains(f),
        has_key(body, field_name(f)),
        merged_from(saved, fetched, scanned),
    ensures
        is_locked(saved, field_name(f)),
        entry_field(scanned, f) == entry_field(saved, f),
{
    lemma_add_locks_contains(base_locks(existing, body), body, scannable_fields(), f);
    assert(entry_field(scanned, f) == entry_field(scanned, f));
}

/// `without_folded(s, key)` holds exactly the elements of `s` whose
/// lower-cased form is not `key`.
proof fn lemma_without_folded(s: Seq<Seq<char>>, key: Seq<char>)
    ensures
        forall|y: Seq<char>|
            #[trigger] without_folded(s, key).contains(y) <==> (s.contains(y) && to_lowercase_spec(y)
                != key),
    decreases s.len(),
{
    if s.len() > 0 {
        let d = s.drop_last();
        let w = without_folded(d, key);
        lemma_without_folded(d, key);
        assert forall|y: Seq<char>|
            #[trigger] without_folded(s, key).contains(y) <==> (s.contains(y) && to_lowercase_spec(y)
                != key) by {
            assert(s == d.push(s.last()));
            assert(s.contains(y) <==> (d.contains(y) || s.last() == y)) by {
                if s.contains(y) {
                    let i = choose|i: int| 0 <= i < s.len() && s[i] == y;
                    if i < d.len() {
                        assert(d[i] == y);
                    }
                }
                if d.contains(y) {
                    let i = choose|i: int| 0 <= i < d.len() && d[i] == y;
                    assert(s[i] == y);
                }
                if s.last() == y {
                    assert(s[s.len() - 1] == y);
                }
            }
            if to_lowercase_spec(s.last()) != key {
                assert(without_folded(s, key) == w.push(s.last()));
                assert(w.push(s.last()).contains(y) <==> (w.contains(y) || s.last() == y)) by {
                    if w.push(s.last()).contains(y) {
                        let i = choose|i: int| 0 <= i < w.len() + 1 && w.push(s.last())[i] == y;
                        if i < w.len() {
                            assert(w[i] == y);
                        }
                    }
                    if w.contains(y) {
                        let i = choose|i: int| 0 <= i < w.len() && w[i] == y;
                        assert(w.push(s.last())[i] == y);
                    }
                    if s.last() == y {
                        assert(w.push(s.last())[w.len() as int] == y);
                    }
                }
            } else {
                assert(without_folded(s, key) == w);
            }
        }
    }
}

/// Un-exiling an app ignores letter case: afterwards no delisted name equals
/// the app's name ignoring case, and every name that differs from it
/// ignoring case is kept.
pub proof fn law_unexile_removes_only_the_app(before: Seq<Seq<char>>, after: Seq<Seq<char>>, process: Seq<char>)
    requires
        after == without_folded(before, to_lowercase_spec(process)),
    ensures
        forall|y: Seq<char>| #[trigger] after.contains(y) ==> to_lowercase_spec(y) != to_lowercase_spec(process),
        forall|y: Seq<char>|
            to_lowercase_spec(y) != to_lowercase_spec(process) ==> (before.contains(y) <==> #[trigger] after.contains(y)),
{
    lemma_without_folded(before, to_lowercase_spec(process));
}

/// The delisted names after exiling an app whose lower-cased title is `x`.
pub open spec fn delisted_after_exile(d: Seq<Seq<char>>, x: Seq<char>) -> Seq<Seq<char>> {
    if d.contains(x) {
        d
    } else {
        d.push(x)
    }
}

/// Exiling delists the app exactly once: afterwards it is delisted, and
/// exiling it again leaves the list as it is.
pub proof fn law_exile_delists_once(d: Seq<Seq<char>>, x: Seq<char>)
    ensures
        delisted_after_exile(d, x).contains(x),
        delisted_after_exile(delisted_after_exile(d, x), x) == delisted_after_exile(d, x),
{
    if !d.contains(x) {
        assert(d.push(x)[d.len() as int] == x);
    }
}

/// Removing what no element folds to leaves a list as it was.
proof fn lemma_without_folded_nothing(s: Seq<Seq<char>>, key: Seq<char>)
    requires
        forall|y: Seq<char>| s.contains(y) ==> to_lowercase_spec(y) != key,
    ensures
        without_folded(s, key) == s,
    decreases s.len(),
{
    if s.len() > 0 {
        let d = s.drop_last();
        assert forall|y: Seq<char>| d.contains(y) implies to_lowercase_spec(y) != key by {
            let i = choose|i: int| 0 <= i < d.len() && d[i] == y;
            assert(s[i] == y);
        }
        lemma_without_folded_nothing(d, key);
        assert(s[s.len() - 1] == s.last());
        assert(s.contains(s.last()));
        assert(d.push(s.last()) =~= s);
    }
}

/// Un-exiling undoes exiling: exiling a game and then un-exiling its
/// trimmed name gives back the delisted list as it was, when that list held
/// no name equal to the game's ignoring case and the game's lower-cased name
/// lower-cases to itself.
pub proof fn law_unexile_undoes_exile(d: Seq<Seq<char>>, game: Seq<char>)
    requires
        forall|y: Seq<char>| d.contains(y) ==> to_lowercase_spec(y) != to_lowercase_spec(trim(game)),
        to_lowercase_spec(to_lowercase_spec(trim(game))) == to_lowercase_spec(trim(game)),
    ensures
        without_folded(delisted_after_exile(d, to_lowercase_spec(trim(game))), to_lowercase_spec(trim(game)))
            == d,
{
    let lp = to_lowercase_spec(trim(game));
    assert(!d.contains(lp));
    assert(delisted_after_exile(d, lp) == d.push(lp));
    assert(d.push(lp).drop_last() =~= d);
    lemma_without_folded_nothing(d, lp);
}

/// A manual edit writes each body key to the field it names: the last
/// pair of the body, `custom_developer` or `developer`, sets the developer;
/// `custom_publisher` or `publisher` the publisher; `custom_release_year` or
/// `release_year` the release year; and a plain field name that field. The
/// aliases never write one another's field.
pub proof fn law_edit_writes_the_named_field(
    existing: Option<ForgeLibraryEntry>,
    body: Seq<(String, FieldValue)>,
    t: Seq<char>,
    out: ForgeLibraryEntry,
    s: String,
)
    requires
        is_upserted(existing, body, t, out),
        body.len() > 0,
        body.last().1 == FieldValue::Text(s),
    ensures
        (body.last().0@ == "custom_developer"@ || body.last().0@ == "developer"@) ==> out.developer@ == s@,
        (body.last().0@ == "custom_publisher"@ || body.last().0@ == "publisher"@) ==> out.publisher@ == s@,
        (body.last().0@ == "custom_release_year"@ || body.last().0@ == "release_year"@) ==> out.release_year@
            == s@,
        body.last().0@ == "genre"@ ==> out.genre@ == s@,
        body.last().0@ == "cover_url"@ ==> out.cover_url@ == s@,
        body.last().0@ == "logo_url"@ ==> out.logo_url@ == s@,
        body.last().0@ == "twitch_id"@ ==> out.twitch_id@ == s@,
        body.last().0@ == "kick_id"@ ==> out.kick_id@ == s@,
        body.last().0@ == "executables"@ ==> out.executables@ == s@,
{
    reveal_strlit("custom_developer");
    reveal_strlit("custom_publisher");
    reveal_strlit("custom_release_year");
    reveal_strlit("developer");
    reveal_strlit("publisher");
    reveal_strlit("release_year");
    reveal_strlit("genre");
    reveal_strlit("cover_url");
    reveal_strlit("logo_url");
    reveal_strlit("twitch_id");
    reveal_strlit("kick_id");
    reveal_strlit("executables");
    let k = body.last().0@;
    assert("custom_release_year"@.len() == 19);
    assert("custom_developer"@.len() == 16);
    assert("developer"@.len() == 9);
    assert("custom_publisher"@.len() == 16);
    assert("publisher"@.len() == 9);
    assert("custom_publisher"@[7] == 'p' && "custom_developer"@[7] == 'd');
    assert("custom_developer"@ != "custom_release_year"@);
    assert("developer"@ != "custom_release_year"@);
    assert("developer"@ != "custom_developer"@);
    assert("developer"@ != "custom_publisher"@);
    assert("publisher"@ != "custom_release_year"@);
    assert("publisher"@ != "custom_developer"@);
    assert("publisher"@ != "custom_publisher"@);
    assert("custom_publisher"@ != "custom_release_year"@);
    assert("custom_publisher"@ != "custom_developer"@);
    if k == "custom_developer"@ || k == "developer"@ {
        assert(body_target(k) == "developer"@);
        assert(final_value(body, "developer"@) == Some(FieldValue::Text(s)));
        assert(field_name(EntryField::Developer) == "developer"@);
    }
    if k == "custom_publisher"@ || k == "publisher"@ {
        assert(body_target(k) == "publisher"@);
        assert(final_value(body, "publisher"@) == Some(FieldValue::Text(s)));
    }
    assert(entry_field(out, EntryField::Developer) == out.developer@);
    assert(entry_field(out, EntryField::Publisher) == out.publisher@);
    assert(entry_field(out, EntryField::ReleaseYear) == out.release_year@);
    assert(entry_field(out, EntryField::Genre) == out.genre@);
    assert(entry_field(out, EntryField::CoverUrl) == out.cover_url@);
    assert(entry_field(out, EntryField::LogoUrl) == out.logo_url@);
    assert(entry_field(out, EntryField::TwitchId) == out.twitch_id@);
    assert(entry_field(out, EntryField::KickId) == out.kick_id@);
    assert(entry_field(out, EntryField::Executables) == out.executables@);
}

/// What a read of the library gives back of a write: the entry stored, and
/// every other title as it was.
pub proof fn law_library_read_after_write(
    before: ForgeDatabase,
    after: ForgeDatabase,
    title: Seq<char>,
    entry: ForgeLibraryEntry,
    other: Seq<char>,
)
    requires
        after.library_view() == before.library_view().insert(title, entry),
        other != title,
    ensures
        after.library_view().dom().contains(title),
        after.library_view()[title] == entry,
        after.library_view().dom().contains(other) == before.library_view().dom().contains(other),
        before.library_view().dom().contains(other) ==> after.library_view()[other]
            == before.library_view()[other],
{
}

} // verus!
