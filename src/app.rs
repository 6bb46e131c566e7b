//! The game state: configuration, the current round, lives and the active
//! screen, and the transitions driven by key presses and clock ticks.
use vstd::prelude::*;
use crate::dictionary::{count_containing_spec, Dictionary};
use crate::menu::{index_above, index_below, PauseItem, StatefulList, TitleItem};
use crate::prompt::{first_supported, generate_prompt, is_prompt_form, supports};
use crate::text::{has_fragment, pop_char, push_char, upper_of, uppercase};

verus! {

/// The screen that receives key presses.
#[derive(Clone, Copy, Debug, PartialEq, Eq, Structural)]
pub enum ActiveScreen {
    Title,
    Settings,
    Game,
    GameOver,
}

/// How rounds end: `Practice` has no countdown, `InfiniteLives` counts down
/// without cost, `LimitedLives` costs a life each time the countdown runs out.
#[derive(Clone, Copy, Debug, PartialEq, Eq, Structural)]
pub enum Gamemode {
    Practice,
    InfiniteLives,
    LimitedLives,
}

/// Game settings, fixed once the game is set up.
pub struct Config {
    pub gamemode: Gamemode,
    /// How many words must contain each prompt.
    pub min_wpp: usize,
    /// Length of a round's countdown, in ticks.
    pub ticks_per_turn: usize,
    /// Lives held at the start of a game besides the one in play.
    pub starting_lives: usize,
    pub max_lives: usize,
    /// Drawn beside the selected menu entry.
    pub list_highlight_symbol: String,
}

/// Ticks in a turn of five seconds at 64 ticks a second.
pub const DEFAULT_TICKS_PER_TURN: usize = 320;

impl Default for Config {
    fn default() -> (c: Config)
        ensures
            c.gamemode == Gamemode::LimitedLives,
            c.min_wpp == 500,
            c.ticks_per_turn == DEFAULT_TICKS_PER_TURN,
            c.starting_lives == 2,
            c.max_lives == 3,
            c.list_highlight_symbol@ == seq![' '],
    {
        let mut symbol = String::new();
        push_char(&mut symbol, ' ');
        Config {
            gamemode: Gamemode::LimitedLives,
            min_wpp: 500,
            ticks_per_turn: DEFAULT_TICKS_PER_TURN,
            starting_lives: 2,
            max_lives: 3,
            list_highlight_symbol: symbol,
        }
    }
}

/// The player's entry in progress, and messages shown beside it.
pub struct Input {
    pub string: String,
    pub messages: Vec<String>,
}

impl Default for Input {
    fn default() -> (i: Input)
        ensures
            i.string@.len() == 0,
            i.messages@.len() == 0,
    {
        Input { string: String::new(), messages: Vec::new() }
    }
}

/// A key press, as far as the game tells keys apart.
#[derive(Clone, Copy, Debug, PartialEq, Eq, Structural)]
pub enum Key {
    Char(char),
    Enter,
    Esc,
    Backspace,
    Up,
    Down,
    Left,
    Right,
    Other,
}

/// Whether the game goes on after a key press.
#[derive(Clone, Copy, Debug, PartialEq, Eq, Structural)]
pub enum Flow {
    Continue,
    Quit,
}

/// Why a game cannot be set up.
#[derive(Clone, Copy, Debug, PartialEq, Eq, Structural)]
pub enum SetupError {
    /// A game would start with more lives than `max_lives`.
    TooManyLives,
    /// No prompt is contained by `min_wpp` words of the dictionary.
    DictionaryTooSparse,
}

/// `word`, already uppercased, is accepted for `prompt`: it contains the
/// prompt and is one of the words.
pub open spec fn accepts(words: Seq<Seq<char>>, prompt: Seq<char>, word: Seq<char>) -> bool {
    has_fragment(word, prompt) && words.contains(word)
}

/// A prompt that may stand in a round: two or three letters contained by at
/// least `min` of `words`.
pub open spec fn valid_prompt(words: Seq<Seq<char>>, min: nat, prompt: Seq<char>) -> bool {
    is_prompt_form(prompt) && count_containing_spec(words, prompt) >= min
}

/// A key that moves a menu's selection up.
pub open spec fn is_up(key: Key) -> bool {
    key == Key::Up || key == Key::Char('k')
}

/// A key that moves a menu's selection down.
pub open spec fn is_down(key: Key) -> bool {
    key == Key::Down || key == Key::Char('j')
}

/// A key that chooses a menu's selected entry.
pub open spec fn is_choose(key: Key) -> bool {
    key == Key::Enter || key == Key::Right || key == Key::Char('l')
}

/// A key that leaves a menu or screen.
pub open spec fn is_back(key: Key) -> bool {
    key == Key::Esc || key == Key::Char('q')
}

/// The whole game state.
pub struct App {
    pub active_screen: ActiveScreen,
    pub title_list: StatefulList<TitleItem>,
    pub input: Input,
    pub prompt: String,
    pub time_left: usize,
    pub lives: usize,
    pub paused: bool,
    pub pause_list: StatefulList<PauseItem>,
    pub dictionary: Dictionary,
    pub config: Config,
}

/// The countdown runs: a game is on screen, not paused, and not practice.
pub open spec fn counts_down(a: App) -> bool {
    a.active_screen == ActiveScreen::Game && !a.paused && a.config.gamemode
        != Gamemode::Practice
}

/// `post` is `pre` with a new round started: a fresh valid prompt, an empty
/// entry and a full countdown; the rest but `lives` and `active_screen` is
/// kept.
pub open spec fn new_round(pre: App, post: App) -> bool {
    &&& valid_prompt(pre.dictionary@, pre.config.min_wpp as nat, post.prompt@)
    &&& post.input.string@.len() == 0
    &&& post.input.messages == pre.input.messages
    &&& post.time_left == pre.config.ticks_per_turn
    &&& post.paused == pre.paused
    &&& post.title_list == pre.title_list
    &&& post.pause_list == pre.pause_list
    &&& post.dictionary == pre.dictionary
    &&& post.config == pre.config
}

/// Lives left after the countdown runs out with `lives` in play.
pub open spec fn lives_after_expiry(mode: Gamemode, lives: usize) -> usize {
    if mode == Gamemode::LimitedLives && lives > 0 {
        (lives - 1) as usize
    } else {
        lives
    }
}

/// One tick of the clock. While the countdown runs it loses one tick; when it
/// is already at zero the round expires: a life is lost in `LimitedLives`,
/// the game returns to the title screen when none is left, and a new round
/// starts. Otherwise nothing changes.
pub open spec fn tick_step(pre: App, post: App) -> bool {
    if !counts_down(pre) {
        post == pre
    } else if pre.time_left >= 1 {
        post == App { time_left: (pre.time_left - 1) as usize, ..pre }
    } else {
        let lives = lives_after_expiry(pre.config.gamemode, pre.lives);
        &&& new_round(pre, post)
        &&& post.lives == lives
        &&& post.active_screen == if pre.config.gamemode == Gamemode::LimitedLives && lives == 0 {
            ActiveScreen::Title
        } else {
            pre.active_screen
        }
    }
}

/// A new game: lives reset to `starting_lives + 1` and a new round; the
/// screen is kept.
pub open spec fn game_started(pre: App, post: App) -> bool {
    &&& new_round(pre, post)
    &&& post.lives == pre.config.starting_lives + 1
    &&& post.active_screen == pre.active_screen
}

/// A key press on the title screen: `q` quits, up and down move through the
/// menu, and choosing an entry starts a game, opens the settings or quits.
pub open spec fn title_step(pre: App, key: Key, post: App, flow: Flow) -> bool {
    if key == Key::Char('q') {
        post == pre && flow == Flow::Quit
    } else if is_up(key) {
        post == App {
            title_list: StatefulList {
                selected: index_above(pre.title_list.selected, pre.title_list.items.len() as nat),
                ..pre.title_list
            },
            ..pre
        } && flow == Flow::Continue
    } else if is_down(key) {
        post == App {
            title_list: StatefulList {
                selected: index_below(pre.title_list.selected, pre.title_list.items.len() as nat),
                ..pre.title_list
            },
            ..pre
        } && flow == Flow::Continue
    } else if is_choose(key) && pre.title_list.selected is Some {
        let item = pre.title_list.items@[pre.title_list.selected->0 as int];
        match item {
            TitleItem::Quit => post == pre && flow == Flow::Quit,
            TitleItem::Start => {
                &&& game_started(pre, App { active_screen: pre.active_screen, ..post })
                &&& post.active_screen == ActiveScreen::Game
                &&& flow == Flow::Continue
            },
            TitleItem::Settings => post == App { active_screen: ActiveScreen::Settings, ..pre }
                && flow == Flow::Continue,
        }
    } else {
        post == pre && flow == Flow::Continue
    }
}

/// A key press on the pause menu: back resumes, up and down move through the
/// menu, and choosing an entry resumes, goes to the title screen, restarts
/// the game unpaused or quits.
pub open spec fn pause_step(pre: App, key: Key, post: App, flow: Flow) -> bool {
    if is_back(key) {
        post == App { paused: false, ..pre } && flow == Flow::Continue
    } else if is_up(key) {
        post == App {
            pause_list: StatefulList {
                selected: index_above(pre.pause_list.selected, pre.pause_list.items.len() as nat),
                ..pre.pause_list
            },
            ..pre
        } && flow == Flow::Continue
    } else if is_down(key) {
        post == App {
            pause_list: StatefulList {
                selected: index_below(pre.pause_list.selected, pre.pause_list.items.len() as nat),
                ..pre.pause_list
            },
            ..pre
        } && flow == Flow::Continue
    } else if is_choose(key) && pre.pause_list.selected is Some {
        let item = pre.pause_list.items@[pre.pause_list.selected->0 as int];
        match item {
            PauseItem::Quit => post == pre && flow == Flow::Quit,
            PauseItem::Resume => post == App { paused: false, ..pre } && flow == Flow::Continue,
            PauseItem::MainMenu => post == App {
                active_screen: ActiveScreen::Title,
                paused: false,
                ..pre
            } && flow == Flow::Continue,
            PauseItem::Restart => {
                &&& game_started(App { paused: false, ..pre }, post)
                &&& flow == Flow::Continue
            },
        }
    } else {
        post == pre && flow == Flow::Continue
    }
}

/// A key press in a running round: enter submits the entry, which starts a
/// new round when accepted; a character is appended; backspace removes the
/// last character; escape pauses.
pub open spec fn play_step(pre: App, key: Key, post: App) -> bool {
    match key {
        Key::Enter => if accepts(pre.dictionary@, pre.prompt@, upper_of(pre.input.string@)) {
            new_round(pre, post) && post.lives == pre.lives && post.active_screen
                == pre.active_screen
        } else {
            post == pre
        },
        Key::Char(c) => post.input.string@ == pre.input.string@.push(c) && post == App {
            input: Input { string: post.input.string, ..pre.input },
            ..pre
        },
        Key::Backspace => post.input.string@ == (if pre.input.string@.len() > 0 {
            pre.input.string@.drop_last()
        } else {
            pre.input.string@
        }) && post == App { input: Input { string: post.input.string, ..pre.input }, ..pre },
        Key::Esc => post == App { paused: true, ..pre },
        _ => post == pre,
    }
}

/// A key press on the settings or game-over screen: back returns to the
/// title screen.
pub open spec fn idle_step(pre: App, key: Key, post: App) -> bool {
    if is_back(key) {
        post == App { active_screen: ActiveScreen::Title, ..pre }
    } else {
        post == pre
    }
}

/// A key press, routed by the active screen and the pause flag.
pub open spec fn key_step(pre: App, key: Key, post: App, flow: Flow) -> bool {
    match pre.active_screen {
        ActiveScreen::Title => title_step(pre, key, post, flow),
        ActiveScreen::Game => if pre.paused {
            pause_step(pre, key, post, flow)
        } else {
            play_step(pre, key, post) && flow == Flow::Continue
        },
        _ => idle_step(pre, key, post) && flow == Flow::Continue,
    }
}

impl App {
    /// The state's invariant: menus select existing entries, the countdown
    /// and lives stay within their bounds, the dictionary can supply
    /// prompts, and a game on screen has a valid prompt.
    pub open spec fn wf(&self) -> bool {
        &&& self.title_list.wf()
        &&& self.title_list.items.len() == 3
        &&& self.pause_list.wf()
        &&& self.pause_list.items.len() == 4
        &&& self.time_left <= self.config.ticks_per_turn
        &&& self.lives <= self.config.max_lives
        &&& self.config.starting_lives < self.config.max_lives
        &&& supports(self.dictionary@, self.config.min_wpp as nat)
        &&& self.active_screen == ActiveScreen::Game ==> valid_prompt(
            self.dictionary@,
            self.config.min_wpp as nat,
            self.prompt@,
        )
    }

    /// A game on the title screen, with nothing selected in either menu. Fails when a game would start with more than `max_lives`
    /// lives, or when no prompt is contained by `min_wpp` words.
    pub fn new(dictionary: Dictionary, config: Config) -> (r: Result<App, SetupError>)
        ensures
            config.starting_lives >= config.max_lives ==> r == Err::<App, SetupError>(
                SetupError::TooManyLives,
            ),
            config.starting_lives < config.max_lives && !supports(
                dictionary@,
                config.min_wpp as nat,
            ) ==> r == Err::<App, SetupError>(SetupError::DictionaryTooSparse),
            config.starting_lives < config.max_lives && supports(
                dictionary@,
                config.min_wpp as nat,
            ) ==> r is Ok,
            r matches Ok(a) ==> {
                &&& a.wf()
                &&& a.active_screen == ActiveScreen::Title
                &&& a.title_list.items@ == seq![
                    TitleItem::Start,
                    TitleItem::Settings,
                    TitleItem::Quit,
                ]
                &&& a.title_list.selected is None
                &&& a.pause_list.items@ == seq![
                    PauseItem::Resume,
                    PauseItem::MainMenu,
                    PauseItem::Restart,
                    PauseItem::Quit,
                ]
                &&& a.pause_list.selected is None
                &&& a.input.string@.len() == 0
                &&& a.prompt@.len() == 0
                &&& a.time_left == config.ticks_per_turn
                &&& a.lives == config.starting_lives + 1
                &&& !a.paused
                &&& a.dictionary@ == dictionary@
                &&& a.config == config
            },
    {
        if config.starting_lives >= config.max_lives {
            return Err(SetupError::TooManyLives);
        }
        match first_supported(&dictionary, config.min_wpp) {
            None => {
                return Err(SetupError::DictionaryTooSparse);
            },
            Some(_) => {},
        }
        let title_list = StatefulList::with_items(
            vec![TitleItem::Start, TitleItem::Settings, TitleItem::Quit],
        );
        let pause_list = StatefulList::with_items(
            vec![PauseItem::Resume, PauseItem::MainMenu, PauseItem::Restart, PauseItem::Quit],
        );
        let time_left = config.ticks_per_turn;
        let lives = config.starting_lives + 1;
        Ok(App {
            active_screen: ActiveScreen::Title,
            title_list,
            input: Input::default(),
            prompt: String::new(),
            time_left,
            lives,
            paused: false,
            pause_list,
            dictionary,
            config,
        })
    }

    /// Starts a new round: a fresh prompt, an empty entry and a full
    /// countdown.
    pub fn next_turn(&mut self)
        requires
            old(self).wf(),
        ensures
            final(self).wf(),
            new_round(*old(self), *final(self)),
            final(self).lives == old(self).lives,
            final(self).active_screen == old(self).active_screen,
    {
        self.prompt = generate_prompt(&self.dictionary, self.config.min_wpp);
        self.input.string = String::new();
        self.time_left = self.config.ticks_per_turn;
    }

    /// Selects the first entry of both menus.
    pub fn select_first_entries(&mut self)
        requires
            old(self).wf(),
        ensures
            final(self).wf(),
            *final(self) == (App {
                title_list: StatefulList { selected: Some(0usize), ..old(self).title_list },
                pause_list: StatefulList { selected: Some(0usize), ..old(self).pause_list },
                ..*old(self)
            }),
    {
        self.title_list.select(0);
        self.pause_list.select(0);
    }

    /// Starts a game: lives reset to `starting_lives + 1` and a new round;
    /// the screen is left as it is.
    pub fn start_game(&mut self)
        requires
            old(self).wf(),
        ensures
            final(self).wf(),
            game_started(*old(self), *final(self)),
    {
        self.lives = self.config.starting_lives + 1;
        self.next_turn();
    }

    /// Whether the player's entry, uppercased, is accepted for the prompt.
    pub fn check_word(&self) -> (r: bool)
        ensures
            r == accepts(self.dictionary@, self.prompt@, upper_of(self.input.string@)),
    {
        let word = uppercase(&self.input.string);
        accepts_word(&self.dictionary, &self.prompt, &word)
    }

    /// One tick of the clock.
    pub fn tick(&mut self)
        requires
            old(self).wf(),
        ensures
            final(self).wf(),
            tick_step(*old(self), *final(self)),
    {
        if self.active_screen != ActiveScreen::Game || self.paused || self.config.gamemode
            == Gamemode::Practice {
            return;
        }
        if self.time_left >= 1 {
            self.time_left = self.time_left - 1;
        } else {
            if self.config.gamemode == Gamemode::LimitedLives {
                if self.lives > 0 {
                    self.lives = self.lives - 1;
                }
                if self.lives == 0 {
                    self.active_screen = ActiveScreen::Title;
                }
            }
            self.next_turn();
        }
    }

    /// Handles a key press on the title screen.
    fn title_key(&mut self, key: Key) -> (flow: Flow)
        requires
            old(self).wf(),
            old(self).active_screen == ActiveScreen::Title,
        ensures
            final(self).wf(),
            title_step(*old(self), key, *final(self), flow),
    {
        if key == Key::Char('q') {
            return Flow::Quit;
        }
        if key == Key::Up || key == Key::Char('k') {
            self.title_list.up();
            return Flow::Continue;
        }
        if key == Key::Down || key == Key::Char('j') {
            self.title_list.down();
            return Flow::Continue;
        }
        if key == Key::Enter || key == Key::Right || key == Key::Char('l') {
            if let Some(i) = self.title_list.selected {
                match self.title_list.items[i] {
                    TitleItem::Quit => {
                        return Flow::Quit;
                    },
                    TitleItem::Start => {
                        self.start_game();
                        self.active_screen = ActiveScreen::Game;
                    },
                    TitleItem::Settings => {
                        self.active_screen = ActiveScreen::Settings;
                    },
                }
            }
        }
        Flow::Continue
    }

    /// Handles a key press on the pause menu.
    fn pause_key(&mut self, key: Key) -> (flow: Flow)
        requires
            old(self).wf(),
            old(self).active_screen == ActiveScreen::Game,
            old(self).paused,
        ensures
            final(self).wf(),
            pause_step(*old(self), key, *final(self), flow),
    {
        if key == Key::Esc || key == Key::Char('q') {
            self.paused = false;
            return Flow::Continue;
        }
        if key == Key::Up || key == Key::Char('k') {
            self.pause_list.up();
            return Flow::Continue;
        }
        if key == Key::Down || key == Key::Char('j') {
            self.pause_list.down();
            return Flow::Continue;
        }
        if key == Key::Enter || key == Key::Right || key == Key::Char('l') {
            if let Some(i) = self.pause_list.selected {
                match self.pause_list.items[i] {
                    PauseItem::Quit => {
                        return Flow::Quit;
                    },
                    PauseItem::Resume => {
                        self.paused = false;
                    },
                    PauseItem::MainMenu => {
                        self.active_screen = ActiveScreen::Title;
                        self.paused = false;
                    },
                    PauseItem::Restart => {
                        self.paused = false;
                        self.start_game();
                    },
                }
            }
        }
        Flow::Continue
    }

    /// Handles a key press in a running round.
    fn play_key(&mut self, key: Key)
        requires
            old(self).wf(),
            old(self).active_screen == ActiveScreen::Game,
            !old(self).paused,
        ensures
            final(self).wf(),
            play_step(*old(self), key, *final(self)),
    {
        match key {
            Key::Enter => {
                if self.check_word() {
                    self.next_turn();
                }
            },
            Key::Char(c) => {
                push_char(&mut self.input.string, c);
            },
            Key::Backspace => {
                let _ = pop_char(&mut self.input.string);
            },
            Key::Esc => {
                self.paused = true;
            },
            _ => {},
        }
    }

    /// Handles a key press according to the active screen and the pause
    /// flag; returns whether the game goes on.
    pub fn handle_key(&mut self, key: Key) -> (flow: Flow)
        requires
            old(self).wf(),
        ensures
            final(self).wf(),
            key_step(*old(self), key, *final(self), flow),
    {
        match self.active_screen {
            ActiveScreen::Title => self.title_key(key),
            ActiveScreen::Game => {
                if self.paused {
                    self.pause_key(key)
                } else {
                    self.play_key(key);
                    Flow::Continue
                }
            },
            _ => {
                if key == Key::Esc || key == Key::Char('q') {
                    self.active_screen = ActiveScreen::Title;
                }
                Flow::Continue
            },
        }
    }
}

/// Whether `word`, already uppercased, is accepted for `prompt`.
pub fn accepts_word(dictionary: &Dictionary, prompt: &str, word: &str) -> (r: bool)
    ensures
        r == accepts(dictionary@, prompt@, word@),
{
    let w = crate::text::chars_of(word);
    let p = crate::text::chars_of(prompt);
    crate::text::contains_fragment(&w, &p) && dictionary.contains_exact(word)
}

} // verus!
