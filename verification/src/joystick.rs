//! The Joystick.tv companion: its configuration, the game it learns from
//! StatusForge's `/status`, the chat messages it renders, and the decisions
//! of its poll loop, chat bot and category push.
use vstd::prelude::*;

use crate::rng::random_choice;
use crate::text::{
    chars_eq, chars_of, chars_replace, eq_ignore_ascii_case, replace, str_eq_ignore_ascii_case,
    string_from_chars, to_owned_string, trim, trim_str,
};

verus! {

// ───────────────────────────── configuration ─────────────────────────────

/// The companion's persisted, non-secret configuration.
#[derive(Debug, Clone)]
pub struct JoystickBotConfig {
    pub client_id: String,
    /// StatusForge's overlay token; its `/status` endpoint requires it.
    pub statusforge_token: String,
    pub category_push_enabled: bool,
    pub chat_announce_enabled: bool,
    pub chat_bot_enabled: bool,
    pub poll_interval_secs: u64,
    /// Game-change announcements; one is picked at random each time.
    pub announce_templates: Vec<String>,
    /// Replies to the `!game` chat command; one is picked at random.
    pub game_reply_templates: Vec<String>,
}

/// The views of a list of strings.
pub open spec fn views(v: Seq<String>) -> Seq<Seq<char>> {
    v.map_values(|s: String| s@)
}

/// The announcements a fresh configuration carries.
pub open spec fn default_announce_views() -> Seq<Seq<char>> {
    seq![
        "🎮 Now playing: {title}"@,
        "Switched it up — {title} time!"@,
        "Currently vibing to {title}"@,
        "New game alert: {title} ({release_year})"@,
        "On the menu now: {title}, a {genre} game by {developer}"@,
    ]
}

/// The `!game` replies a fresh configuration carries.
pub open spec fn default_game_reply_views() -> Seq<Seq<char>> {
    seq![
        "Currently playing: {title}"@,
        "Right now? {title}."@,
        "{title}, obviously."@,
        "We're deep in {title} ({genre}) right now"@,
    ]
}

/// The default game-change announcements.
pub fn default_announce_templates() -> (r: Vec<String>)
    ensures
        views(r@) == default_announce_views(),
{
    let mut v: Vec<String> = Vec::new();
    v.push(to_owned_string("🎮 Now playing: {title}"));
    v.push(to_owned_string("Switched it up — {title} time!"));
    v.push(to_owned_string("Currently vibing to {title}"));
    v.push(to_owned_string("New game alert: {title} ({release_year})"));
    v.push(to_owned_string("On the menu now: {title}, a {genre} game by {developer}"));
    assert(views(v@) =~= default_announce_views());
    v
}

/// The default `!game` replies.
pub fn default_game_reply_templates() -> (r: Vec<String>)
    ensures
        views(r@) == default_game_reply_views(),
{
    let mut v: Vec<String> = Vec::new();
    v.push(to_owned_string("Currently playing: {title}"));
    v.push(to_owned_string("Right now? {title}."));
    v.push(to_owned_string("{title}, obviously."));
    v.push(to_owned_string("We're deep in {title} ({genre}) right now"));
    assert(views(v@) =~= default_game_reply_views());
    v
}

impl Default for JoystickBotConfig {
    /// No client id or token; category push off (Joystick.tv has no stream
    /// categories yet), announcements on, chat bot off, a 10 s poll, and the
    /// default templates.
    fn default() -> (r: Self)
        ensures
            r.client_id@.len() == 0,
            r.statusforge_token@.len() == 0,
            !r.category_push_enabled,
            r.chat_announce_enabled,
            !r.chat_bot_enabled,
            r.poll_interval_secs == 10,
            views(r.announce_templates@) == default_announce_views(),
            views(r.game_reply_templates@) == default_game_reply_views(),
    {
        JoystickBotConfig {
            client_id: String::new(),
            statusforge_token: String::new(),
            category_push_enabled: false,
            chat_announce_enabled: true,
            chat_bot_enabled: false,
            poll_interval_secs: 10,
            announce_templates: default_announce_templates(),
            game_reply_templates: default_game_reply_templates(),
        }
    }
}

/// The templates kept from an edit: those that are not blank, in order.
pub open spec fn non_blank(v: Seq<Seq<char>>) -> Seq<Seq<char>>
    decreases v.len(),
{
    if v.len() == 0 {
        v
    } else if trim(v.last()).len() == 0 {
        non_blank(v.drop_last())
    } else {
        non_blank(v.drop_last()).push(v.last())
    }
}

/// Drops the blank lines of an edited template list.
fn keep_non_blank(templates: Vec<String>) -> (r: Vec<String>)
    ensures
        views(r@) == non_blank(views(templates@)),
{
    let mut out: Vec<String> = Vec::new();
    let mut i: usize = 0;
    while i < templates.len()
        invariant
            i <= templates@.len(),
            views(out@) == non_blank(views(templates@.take(i as int))),
        decreases templates@.len() - i,
    {
        proof {
            assert(views(templates@.take(i + 1)).drop_last() =~= views(templates@.take(i as int)));
            assert(views(templates@.take(i + 1)).last() == templates@[i as int]@);
        }
        let t = trim_str(templates[i].as_str());
        if !t.as_str().is_empty() {
            let ghost before = out@;
            out.push(templates[i].clone());
            proof {
                assert(views(out@) =~= views(before).push(templates@[i as int]@));
            }
        }
        i += 1;
    }
    proof {
        assert(templates@.take(templates@.len() as int) =~= templates@);
    }
    out
}

impl JoystickBotConfig {
    /// Sets the Joystick.tv client id.
    pub fn set_client_id(&mut self, client_id: String)
        ensures
            *final(self) == (JoystickBotConfig { client_id, ..*old(self) }),
    {
        self.client_id = client_id;
    }

    /// Sets the StatusForge overlay token the companion polls with.
    pub fn set_statusforge_token(&mut self, token: String)
        ensures
            *final(self) == (JoystickBotConfig { statusforge_token: token, ..*old(self) }),
    {
        self.statusforge_token = token;
    }

    /// Flips category push and returns the new setting.
    pub fn toggle_category_push(&mut self) -> (r: bool)
        ensures
            r == !old(self).category_push_enabled,
            *final(self) == (JoystickBotConfig { category_push_enabled: r, ..*old(self) }),
    {
        self.category_push_enabled = !self.category_push_enabled;
        self.category_push_enabled
    }

    /// Flips chat announcements and returns the new setting.
    pub fn toggle_chat_announce(&mut self) -> (r: bool)
        ensures
            r == !old(self).chat_announce_enabled,
            *final(self) == (JoystickBotConfig { chat_announce_enabled: r, ..*old(self) }),
    {
        self.chat_announce_enabled = !self.chat_announce_enabled;
        self.chat_announce_enabled
    }

    /// Flips the chat bot and returns the new setting.
    pub fn toggle_chat_bot(&mut self) -> (r: bool)
        ensures
            r == !old(self).chat_bot_enabled,
            *final(self) == (JoystickBotConfig { chat_bot_enabled: r, ..*old(self) }),
    {
        self.chat_bot_enabled = !self.chat_bot_enabled;
        self.chat_bot_enabled
    }

    /// Replaces the announcements; blank lines are dropped.
    pub fn set_announce_templates(&mut self, templates: Vec<String>)
        ensures
            views(final(self).announce_templates@) == non_blank(views(templates@)),
            final(self).game_reply_templates == old(self).game_reply_templates,
            final(self).client_id == old(self).client_id,
            final(self).statusforge_token == old(self).statusforge_token,
            final(self).category_push_enabled == old(self).category_push_enabled,
            final(self).chat_announce_enabled == old(self).chat_announce_enabled,
            final(self).chat_bot_enabled == old(self).chat_bot_enabled,
            final(self).poll_interval_secs == old(self).poll_interval_secs,
    {
        self.announce_templates = keep_non_blank(templates);
    }

    /// Replaces the `!game` replies; blank lines are dropped.
    pub fn set_game_reply_templates(&mut self, templates: Vec<String>)
        ensures
            views(final(self).game_reply_templates@) == non_blank(views(templates@)),
            final(self).announce_templates == old(self).announce_templates,
            final(self).client_id == old(self).client_id,
            final(self).statusforge_token == old(self).statusforge_token,
            final(self).category_push_enabled == old(self).category_push_enabled,
            final(self).chat_announce_enabled == old(self).chat_announce_enabled,
            final(self).chat_bot_enabled == old(self).chat_bot_enabled,
            final(self).poll_interval_secs == old(self).poll_interval_secs,
    {
        self.game_reply_templates = keep_non_blank(templates);
    }

    /// Seconds between two polls of StatusForge: the setting, kept within
    /// 3..=120.
    pub fn poll_interval(&self) -> (r: u64)
        ensures
            r == if self.poll_interval_secs < 3 {
                3
            } else if self.poll_interval_secs > 120 {
                120
            } else {
                self.poll_interval_secs
            },
    {
        if self.poll_interval_secs < 3 {
            3
        } else if self.poll_interval_secs > 120 {
            120
        } else {
            self.poll_interval_secs
        }
    }
}

// ───────────────────────────── the current game ─────────────────────────────

/// What StatusForge reports as the detected game. Genre, developer and
/// release year come from StatusForge's library and are empty when it has
/// no entry for the title.
#[derive(Debug, Clone, Default, PartialEq, Eq)]
pub struct GameMeta {
    pub title: String,
    pub genre: String,
    pub developer: String,
    pub release_year: String,
}

/// The character views of a game's fields.
pub open spec fn meta_view(g: GameMeta) -> (Seq<char>, Seq<char>, Seq<char>, Seq<char>) {
    (g.title@, g.genre@, g.developer@, g.release_year@)
}

/// The view of an optional game.
pub open spec fn opt_meta_view(g: Option<GameMeta>) -> Option<(Seq<char>, Seq<char>, Seq<char>, Seq<char>)> {
    match g {
        Some(m) => Some(meta_view(m)),
        None => None,
    }
}

/// The view of an optional string slice.
pub open spec fn opt_view(s: Option<&str>) -> Seq<char> {
    match s {
        Some(x) => x@,
        None => Seq::empty(),
    }
}

/// The game of a `/status` answer: none unless StatusForge is running; the
/// trimmed title, or `"Just Chatting"` when it is blank; absent strings are
/// empty. (StatusForge sends the release year under `release_date`.)
pub fn parse_game_meta(
    running: bool,
    game_title: Option<&str>,
    genre: Option<&str>,
    developer: Option<&str>,
    release_date: Option<&str>,
) -> (r: Option<GameMeta>)
    ensures
        !running ==> r is None,
        running ==> (r matches Some(g) && g.title@ == (if trim(opt_view(game_title)).len() == 0 {
            "Just Chatting"@
        } else {
            trim(opt_view(game_title))
        }) && g.genre@ == opt_view(genre) && g.developer@ == opt_view(developer)
            && g.release_year@ == opt_view(release_date)),
{
    if !running {
        return None;
    }
    let raw = match game_title {
        Some(t) => trim_str(t),
        None => String::new(),
    };
    let title = if raw.as_str().is_empty() {
        to_owned_string("Just Chatting")
    } else {
        raw
    };
    let pick = |s: Option<&str>| -> (r: String)
        ensures
            r@ == opt_view(s),
        {
            match s {
                Some(x) => to_owned_string(x),
                None => String::new(),
            }
        };
    Some(
        GameMeta {
            title,
            genre: pick(genre),
            developer: pick(developer),
            release_year: pick(release_date),
        },
    )
}

/// Whether two games are the same (all four fields equal).
pub fn same_game(a: &GameMeta, b: &GameMeta) -> (r: bool)
    ensures
        r == (meta_view(*a) == meta_view(*b)),
{
    chars_eq(chars_of(a.title.as_str()).as_slice(), chars_of(b.title.as_str()).as_slice())
        && chars_eq(chars_of(a.genre.as_str()).as_slice(), chars_of(b.genre.as_str()).as_slice())
        && chars_eq(
        chars_of(a.developer.as_str()).as_slice(),
        chars_of(b.developer.as_str()).as_slice(),
    ) && chars_eq(
        chars_of(a.release_year.as_str()).as_slice(),
        chars_of(b.release_year.as_str()).as_slice(),
    )
}

/// Whether the optional games differ.
pub fn game_changed(current: &Option<GameMeta>, new_game: &Option<GameMeta>) -> (r: bool)
    ensures
        r == (opt_meta_view(*current) != opt_meta_view(*new_game)),
{
    match (current, new_game) {
        (Some(a), Some(b)) => !same_game(a, b),
        (None, None) => false,
        _ => true,
    }
}

// ───────────────────────────── templates ─────────────────────────────

/// A template with `{title}`, `{genre}`, `{developer}` and `{release_year}`
/// replaced, in that order.
pub open spec fn substitute(t: Seq<char>, g: GameMeta) -> Seq<char> {
    replace(
        replace(
            replace(replace(t, "{title}"@, g.title@), "{genre}"@, g.genre@),
            "{developer}"@,
            g.developer@,
        ),
        "{release_year}"@,
        g.release_year@,
    )
}

/// Fills the placeholders of one template.
pub fn fill_template(template: &str, game: &GameMeta) -> (r: String)
    ensures
        r@ == substitute(template@, *game),
{
    proof {
        reveal_strlit("{title}");
        reveal_strlit("{genre}");
        reveal_strlit("{developer}");
        reveal_strlit("{release_year}");
    }
    let t = chars_of(template);
    let p1 = chars_of("{title}");
    let s1 = chars_replace(t.as_slice(), p1.as_slice(), chars_of(game.title.as_str()).as_slice());
    let p2 = chars_of("{genre}");
    let s2 = chars_replace(s1.as_slice(), p2.as_slice(), chars_of(game.genre.as_str()).as_slice());
    let p3 = chars_of("{developer}");
    let s3 = chars_replace(
        s2.as_slice(),
        p3.as_slice(),
        chars_of(game.developer.as_str()).as_slice(),
    );
    let p4 = chars_of("{release_year}");
    let s4 = chars_replace(
        s3.as_slice(),
        p4.as_slice(),
        chars_of(game.release_year.as_str()).as_slice(),
    );
    string_from_chars(s4.as_slice())
}

/// Picks one template at random and fills it; with no templates, falls
/// back to `"Now playing: {title}"` rather than sending a blank message.
pub fn render_template(templates: &[String], game: &GameMeta) -> (r: String)
    ensures
        templates@.len() == 0 ==> r@ == substitute("Now playing: {title}"@, *game),
        templates@.len() > 0 ==> exists|i: int|
            0 <= i < templates@.len() && r@ == substitute(#[trigger] templates@[i]@, *game),
{
    match random_choice(templates) {
        Some(t) => {
            let r = fill_template(t.as_str(), game);
            proof {
                let i = choose|i: int| 0 <= i < templates@.len() && templates@[i] == *t;
                assert(r@ == substitute(templates@[i]@, *game));
            }
            r
        },
        None => fill_template("Now playing: {title}", game),
    }
}

/// The game a `!game` reply describes: the current game, or "nothing right
/// now" with no details.
pub fn game_reply_meta(current: &Option<GameMeta>) -> (r: GameMeta)
    ensures
        current matches Some(g) ==> meta_view(r) == meta_view(*g),
        current is None ==> r.title@ == "nothing right now"@ && r.genre@.len() == 0
            && r.developer@.len() == 0 && r.release_year@.len() == 0,
{
    match current {
        Some(g) => GameMeta {
            title: g.title.clone(),
            genre: g.genre.clone(),
            developer: g.developer.clone(),
            release_year: g.release_year.clone(),
        },
        None => GameMeta {
            title: to_owned_string("nothing right now"),
            genre: String::new(),
            developer: String::new(),
            release_year: String::new(),
        },
    }
}

/// A chat message is the `!game` command: `!game` once trimmed, in any
/// ASCII case.
pub fn is_game_command(text: &str) -> (r: bool)
    ensures
        r == eq_ignore_ascii_case(trim(text@), "!game"@),
{
    let t = trim_str(text);
    str_eq_ignore_ascii_case(t.as_str(), "!game")
}

/// The chat text of a gateway message: `message.text`, else `data.text`,
/// else `text`.
pub fn extract_chat_text(message_text: Option<&str>, data_text: Option<&str>, text: Option<&str>) -> (r: Option<String>)
    ensures
        message_text matches Some(m) ==> (r matches Some(s) && s@ == m@),
        message_text is None ==> (data_text matches Some(d) ==> (r matches Some(s) && s@ == d@)),
        message_text is None && data_text is None ==> (text matches Some(t) ==> (r matches Some(s)
            && s@ == t@)),
        message_text is None && data_text is None && text is None ==> r is None,
{
    match message_text {
        Some(m) => Some(to_owned_string(m)),
        None => match data_text {
            Some(d) => Some(to_owned_string(d)),
            None => match text {
                Some(t) => Some(to_owned_string(t)),
                None => None,
            },
        },
    }
}

// ───────────────────────────── runtime state ─────────────────────────────

/// A pending PKCE login: the code verifier and the CSRF state token.
#[derive(Debug, Clone, Default)]
pub struct PkceState {
    pub verifier: String,
    pub state: String,
}

/// The companion's runtime state.
#[derive(Debug, Clone)]
pub struct JoystickBotState {
    pub config: JoystickBotConfig,
    pub access_token: Option<String>,
    pub refresh_token: Option<String>,
    pub username: String,
    pub current_game: Option<GameMeta>,
    pub main_app_reachable: bool,
    pub running: bool,
    pub pending_pkce: Option<PkceState>,
}

/// The state at start-up: the loaded configuration and the stored
/// credentials (no username: empty), no game yet, StatusForge not reached
/// yet, running, no login pending.
pub fn init_state(
    config: JoystickBotConfig,
    access_token: Option<String>,
    refresh_token: Option<String>,
    username: Option<String>,
) -> (r: JoystickBotState)
    ensures
        r.config == config,
        r.access_token == access_token,
        r.refresh_token == refresh_token,
        username matches Some(u) ==> r.username == u,
        username is None ==> r.username@.len() == 0,
        r.current_game is None,
        !r.main_app_reachable,
        r.running,
        r.pending_pkce is None,
{
    JoystickBotState {
        config,
        access_token,
        refresh_token,
        username: match username {
            Some(u) => u,
            None => String::new(),
        },
        current_game: None,
        main_app_reachable: false,
        running: true,
        pending_pkce: None,
    }
}

/// What one poll of StatusForge asks the loop to do.
#[derive(Debug, Clone)]
pub struct PollActions {
    /// The game changed.
    pub changed: bool,
    /// Push this title as the stream category.
    pub push_category: Option<String>,
    /// Send a game-change announcement for the new game.
    pub announce: bool,
}

impl JoystickBotState {
    /// Applies one poll: records whether StatusForge answered and the game
    /// it reports. On a change to a game while connected, the category is
    /// pushed (when enabled) and the change announced (when enabled).
    pub fn poll_update(&mut self, reachable: bool, new_game: Option<GameMeta>) -> (r: PollActions)
        ensures
            final(self).main_app_reachable == reachable,
            r.changed == (opt_meta_view(old(self).current_game) != opt_meta_view(new_game)),
            r.changed ==> final(self).current_game == new_game,
            !r.changed ==> final(self).current_game == old(self).current_game,
            final(self).config == old(self).config,
            final(self).access_token == old(self).access_token,
            final(self).refresh_token == old(self).refresh_token,
            final(self).username == old(self).username,
            final(self).running == old(self).running,
            final(self).pending_pkce == old(self).pending_pkce,
            ({
                let act = r.changed && new_game is Some && old(self).access_token is Some;
                &&& (r.push_category matches Some(t) <==> act && old(self).config.category_push_enabled)
                &&& (r.push_category matches Some(t) ==> t@ == new_game->0.title@)
                &&& r.announce == (act && old(self).config.chat_announce_enabled)
            }),
    {
        self.main_app_reachable = reachable;
        let changed = game_changed(&self.current_game, &new_game);
        if !changed {
            return PollActions { changed: false, push_category: None, announce: false };
        }
        let connected = self.access_token.is_some();
        let acts = match &new_game {
            Some(g) => {
                if connected {
                    PollActions {
                        changed: true,
                        push_category: if self.config.category_push_enabled {
                            Some(g.title.clone())
                        } else {
                            None
                        },
                        announce: self.config.chat_announce_enabled,
                    }
                } else {
                    PollActions { changed: true, push_category: None, announce: false }
                }
            },
            None => PollActions { changed: true, push_category: None, announce: false },
        };
        self.current_game = new_game;
        acts
    }

    /// Forgets the session after a disconnect: no tokens, no username.
    pub fn disconnect(&mut self)
        ensures
            final(self).access_token is None,
            final(self).refresh_token is None,
            final(self).username@.len() == 0,
            final(self).config == old(self).config,
            final(self).current_game == old(self).current_game,
            final(self).main_app_reachable == old(self).main_app_reachable,
            final(self).running == old(self).running,
            final(self).pending_pkce == old(self).pending_pkce,
    {
        self.access_token = None;
        self.refresh_token = None;
        self.username = String::new();
    }
}

/// What the chat-bot loop does on a tick.
#[derive(Debug, Clone, Copy, PartialEq, Eq, Structural)]
pub enum ChatBotMode {
    /// Run the gateway with the access token.
    Run,
    /// The toggle is off.
    Disabled,
    /// On, but not connected to Joystick.tv.
    NoToken,
}

/// The chat-bot loop's choice for a tick.
pub fn chat_bot_mode(enabled: bool, has_token: bool) -> (r: ChatBotMode)
    ensures
        r == if !enabled {
            ChatBotMode::Disabled
        } else if has_token {
            ChatBotMode::Run
        } else {
            ChatBotMode::NoToken
        },
{
    if !enabled {
        ChatBotMode::Disabled
    } else if has_token {
        ChatBotMode::Run
    } else {
        ChatBotMode::NoToken
    }
}

// ───────────────────────────── requests ─────────────────────────────

/// The key the category is written under: the first of `category`, `game`,
/// `game_name` and `genre` the stream object already has, else `category`.
pub open spec fn category_key_spec(keys: Seq<Seq<char>>) -> Seq<char> {
    if keys.contains("category"@) {
        "category"@
    } else if keys.contains("game"@) {
        "game"@
    } else if keys.contains("game_name"@) {
        "game_name"@
    } else if keys.contains("genre"@) {
        "genre"@
    } else {
        "category"@
    }
}

fn has_string(keys: &Vec<String>, k: &str) -> (r: bool)
    ensures
        r == views(keys@).contains(k@),
{
    let mut i: usize = 0;
    while i < keys.len()
        invariant
            i <= keys@.len(),
            forall|j: int| 0 <= j < i ==> keys@[j]@ != k@,
        decreases keys@.len() - i,
    {
        if chars_eq(chars_of(keys[i].as_str()).as_slice(), chars_of(k).as_slice()) {
            proof {
                assert(views(keys@)[i as int] == k@);
            }
            return true;
        }
        i += 1;
    }
    proof {
        if views(keys@).contains(k@) {
            let j = choose|j: int| 0 <= j < views(keys@).len() && views(keys@)[j] == k@;
            assert(keys@[j]@ == k@);
        }
    }
    false
}

/// The key of the stream object (whose keys are `keys`) that the category
/// push overwrites.
pub fn category_key(keys: &Vec<String>) -> (r: String)
    ensures
        r@ == category_key_spec(views(keys@)),
{
    if has_string(keys, "category") {
        to_owned_string("category")
    } else if has_string(keys, "game") {
        to_owned_string("game")
    } else if has_string(keys, "game_name") {
        to_owned_string("game_name")
    } else if has_string(keys, "genre") {
        to_owned_string("genre")
    } else {
        to_owned_string("category")
    }
}

/// A request's next step after its first answer: retry once after a token
/// refresh on 401; success on 2xx; otherwise failure.
#[derive(Debug, Clone, Copy, PartialEq, Eq, Structural)]
pub enum TokenStep {
    Done,
    Refresh,
    Failed,
}

/// The status is 2xx.
pub open spec fn is_success(status: u16) -> bool {
    200 <= status <= 299
}

/// The step after the first attempt answered `status`.
pub fn first_attempt_step(status: u16) -> (r: TokenStep)
    ensures
        r == if status == 401 {
            TokenStep::Refresh
        } else if is_success(status) {
            TokenStep::Done
        } else {
            TokenStep::Failed
        },
{
    if status == 401 {
        TokenStep::Refresh
    } else if 200 <= status && status <= 299 {
        TokenStep::Done
    } else {
        TokenStep::Failed
    }
}

/// The outcome of a request answered `status` (`status_text` its display
/// form, such as `"404 Not Found"`), on the first attempt or after a
/// refresh. A 401 on the first attempt is never final (see
/// `first_attempt_step`).
pub fn attempt_outcome(status: u16, status_text: &str, after_refresh: bool) -> (r: Result<(), String>)
    requires
        !after_refresh ==> status != 401,
    ensures
        is_success(status) <==> r is Ok,
        r matches Err(m) ==> m@ == (if after_refresh {
            "still failing after refresh: "@
        } else {
            "request failed: "@
        }) + status_text@,
{
    if 200 <= status && status <= 299 {
        Ok(())
    } else {
        let mut m = if after_refresh {
            String::from_str("still failing after refresh: ")
        } else {
            String::from_str("request failed: ")
        };
        m.append(status_text);
        Err(m)
    }
}

/// The title a manual test push uses: the given one when it is not blank,
/// else `"Test Category"`.
pub fn test_push_title(title: Option<String>) -> (r: String)
    ensures
        (title matches Some(t) && trim(t@).len() > 0) ==> r@ == title->0@,
        !(title matches Some(t) && trim(t@).len() > 0) ==> r@ == "Test Category"@,
{
    match title {
        Some(t) => {
            let tt = trim_str(t.as_str());
            if tt.as_str().is_empty() {
                to_owned_string("Test Category")
            } else {
                t
            }
        },
        None => to_owned_string("Test Category"),
    }
}

/// The stand-in game of a manual test push, so templates using any
/// placeholder can be tried without a detected game.
pub fn test_game(title: String) -> (r: GameMeta)
    ensures
        r.title == title,
        r.genre@ == "Test Genre"@,
        r.developer@ == "Test Developer"@,
        r.release_year@ == "2024"@,
{
    GameMeta {
        title,
        genre: to_owned_string("Test Genre"),
        developer: to_owned_string("Test Developer"),
        release_year: to_owned_string("2024"),
    }
}

/// The test chat message: the rendered announcement marked `[Test] `.
pub fn test_message(rendered: &str) -> (r: String)
    ensures
        r@ == "[Test] "@ + rendered@,
{
    let mut m = String::from_str("[Test] ");
    m.append(rendered);
    m
}

/// The report of a manual test push: the category push is skipped
/// (Joystick.tv has no categories yet), then the chat message's result.
pub fn test_push_report(chat: &Result<(), String>) -> (r: String)
    ensures
        chat is Ok ==> r@ == "Category push: skipped (not supported by Joystick.tv yet)\nChat message: OK"@,
        chat matches Err(e) ==> r@
            == "Category push: skipped (not supported by Joystick.tv yet)\nChat message: FAILED — "@
            + e@,
{
    match chat {
        Ok(()) => to_owned_string(
            "Category push: skipped (not supported by Joystick.tv yet)\nChat message: OK",
        ),
        Err(e) => {
            let mut m = String::from_str(
                "Category push: skipped (not supported by Joystick.tv yet)\nChat message: FAILED — ",
            );
            m.append(e.as_str());
            m
        },
    }
}

// ───────────────────────────── laws ─────────────────────────────

/// Edited template lists never keep a blank line, and keep every other line
/// in order.
pub proof fn law_templates_never_blank(v: Seq<Seq<char>>)
    ensures
        forall|i: int| 0 <= i < non_blank(v).len() ==> trim(#[trigger] non_blank(v)[i]).len() > 0,
        non_blank(v).len() <= v.len(),
    decreases v.len(),
{
    if v.len() > 0 {
        law_templates_never_blank(v.drop_last());
        let w = non_blank(v.drop_last());
        if trim(v.last()).len() > 0 {
            assert forall|i: int| 0 <= i < w.push(v.last()).len() implies trim(
                #[trigger] w.push(v.last())[i],
            ).len() > 0 by {
                if i < w.len() {
                    assert(w.push(v.last())[i] == w[i]);
                }
            }
        }
    }
}

/// The companion announces a game once: after a poll that reports `game`
/// (`after` is the current game `poll_update` leaves), polling again while
/// StatusForge still reports it finds no change, so nothing is pushed or
/// announced again.
pub proof fn law_same_game_polled_twice_is_quiet(
    before: Option<GameMeta>,
    game: Option<GameMeta>,
    after: Option<GameMeta>,
)
    requires
        opt_meta_view(before) != opt_meta_view(game) ==> after == game,
        opt_meta_view(before) == opt_meta_view(game) ==> after == before,
    ensures
        opt_meta_view(after) == opt_meta_view(game),
{
}

} // verus!
