use kaboom::app::{accepts_word, ActiveScreen, App, Config, Flow, Gamemode, Input, Key, SetupError};
use kaboom::dictionary::Dictionary;
use kaboom::menu::{PauseItem, StatefulList, TitleItem};
use kaboom::prompt::{
    candidate_from_draws, first_accepted, first_supported, fragment_from_draws, generate_prompt,
};

fn config(gamemode: Gamemode, min_wpp: usize, ticks: usize, starting_lives: usize) -> Config {
    Config {
        gamemode,
        min_wpp,
        ticks_per_turn: ticks,
        starting_lives,
        max_lives: starting_lives + 1,
        list_highlight_symbol: " ".to_string(),
    }
}

fn app(words: &str, cfg: Config) -> App {
    match App::new(Dictionary::load(words), cfg) {
        Ok(mut a) => {
            a.select_first_entries();
            a
        }
        Err(e) => panic!("setup failed: {:?}", e),
    }
}

fn start_from_title(a: &mut App) {
    assert_eq!(a.title_list.selected, Some(0));
    assert_eq!(a.handle_key(Key::Enter), Flow::Continue);
    assert_eq!(a.active_screen, ActiveScreen::Game);
}

fn is_valid_prompt(d: &Dictionary, p: &str, min: usize) -> bool {
    (p.len() == 2 || p.len() == 3)
        && p.chars().all(|c| c.is_ascii_uppercase())
        && d.count_containing(p) >= min
}

#[test]
fn load_splits_lines_and_strips_carriage_returns() {
    let d = Dictionary::load("CRANE\r\nPLANE\nAPPLE");
    assert_eq!(d.len(), 3);
    assert!(d.contains_exact("CRANE"));
    assert!(d.contains_exact("PLANE"));
    assert!(d.contains_exact("APPLE"));
    assert!(!d.contains_exact("CRANE\r"));
    assert!(!d.contains_exact("crane"));
}

#[test]
fn load_keeps_empty_last_line() {
    let d = Dictionary::load("AB\n");
    assert_eq!(d.len(), 2);
    assert!(d.contains_exact(""));
    assert_eq!(Dictionary::load("").len(), 1);
}

#[test]
fn count_containing_matches_naive_scan() {
    let words = ["CRANE", "PLANE", "APPLE", "BANANA", "AN"];
    let d = Dictionary::load(&words.join("\n"));
    for f in ["AN", "A", "", "ZZ", "ANA", "PL", "CRANES", "E"] {
        let naive = words.iter().filter(|w| w.contains(f)).count();
        assert_eq!(d.count_containing(f), naive, "fragment {:?}", f);
    }
    assert_eq!(d.count_containing("AN"), 4);
    assert_eq!(d.count_containing("ZZ"), 0);
}

#[test]
fn submit_uppercases_and_checks_prompt_and_membership() {
    let mut a = app("CRANE\nPLANE", config(Gamemode::LimitedLives, 2, 10, 2));
    a.prompt = "AN".to_string();
    a.input.string = "plane".to_string();
    assert!(a.check_word());
    a.input.string = "zzzz".to_string();
    assert!(!a.check_word());
    a.input.string = "ane".to_string();
    assert!(!a.check_word());
    a.input.string = "Crane".to_string();
    assert!(a.check_word());
}

#[test]
fn accepts_word_needs_both_conditions() {
    let d = Dictionary::load("CRANE\nPLANE");
    assert!(accepts_word(&d, "AN", "PLANE"));
    assert!(!accepts_word(&d, "AN", "ANE"));
    assert!(!accepts_word(&d, "CR", "PLANE"));
    assert!(!accepts_word(&d, "AN", "plane"));
}

#[test]
fn menu_wraps_around() {
    let mut l = StatefulList::with_items(vec![1, 2, 3]);
    assert_eq!(l.selected, None);
    l.select(0);
    l.up();
    assert_eq!(l.selected, Some(2));
    l.select(2);
    l.down();
    assert_eq!(l.selected, Some(0));
    l.down();
    assert_eq!(l.selected, Some(1));
    l.up();
    assert_eq!(l.selected, Some(0));
    l.unselect();
    assert_eq!(l.selected, None);
    l.up();
    assert_eq!(l.selected, Some(0));
}

#[test]
fn empty_menu_selects_first_index() {
    let mut l: StatefulList<u8> = StatefulList::with_items(Vec::new());
    l.up();
    assert_eq!(l.selected, Some(0));
    l.unselect();
    l.down();
    assert_eq!(l.selected, Some(0));
    l.up();
    assert_eq!(l.selected, Some(0));
    l.down();
    assert_eq!(l.selected, Some(0));
}

#[test]
fn select_takes_any_index() {
    let mut l = StatefulList::with_items(vec!['a', 'b']);
    l.select(7);
    assert_eq!(l.selected, Some(7));
    assert_eq!(l.items, vec!['a', 'b']);
}

#[test]
fn start_game_keeps_the_screen() {
    let mut a = app("CRANE\nPLANE", config(Gamemode::LimitedLives, 2, 10, 2));
    a.lives = 1;
    a.start_game();
    assert_eq!(a.active_screen, ActiveScreen::Title);
    assert_eq!(a.lives, 3);
    assert_eq!(a.time_left, 10);
    assert!(is_valid_prompt(&a.dictionary, &a.prompt, 2));
}

#[test]
fn first_accepted_takes_first_common_candidate() {
    let d = Dictionary::load("CRANE\nPLANE\nZEBRA");
    // Q X, then A N
    let draws = vec![vec![16, 23], vec![0, 13], vec![13, 4]];
    assert_eq!(first_accepted(&d, 2, 1, &draws), Some("AN".to_string()));
    assert_eq!(first_accepted(&d, 0, 1, &draws), Some("QX".to_string()));
    assert_eq!(first_accepted(&d, 3, 1, &draws), None);
    assert_eq!(first_accepted(&d, 1, 1, &vec![]), None);
    let long = vec![vec![0, 13, 4], vec![17, 0, 13]];
    assert_eq!(first_accepted(&d, 2, 0, &long), Some("ANE".to_string()));
    assert_eq!(first_accepted(&d, 1, 0, &vec![vec![17, 0, 13], vec![0, 13, 4]]), Some("RAN".to_string()));
}

#[test]
fn countdown_costs_one_life_then_title() {
    let mut a = app("CRANE\nPLANE", config(Gamemode::LimitedLives, 2, 3, 0));
    a.handle_key(Key::Enter);
    assert_eq!(a.active_screen, ActiveScreen::Game);
    assert_eq!(a.lives, 1);
    assert_eq!(a.time_left, 3);
    for expected in [2, 1, 0] {
        a.tick();
        assert_eq!(a.time_left, expected);
        assert_eq!(a.lives, 1);
    }
    a.input.string = "X".to_string();
    a.tick();
    assert_eq!(a.lives, 0);
    assert_eq!(a.active_screen, ActiveScreen::Title);
    assert_eq!(a.time_left, 3);
    assert_eq!(a.input.string, "");
    assert!(is_valid_prompt(&a.dictionary, &a.prompt, 2));
    a.tick();
    assert_eq!(a.lives, 0);
    assert_eq!(a.time_left, 3);
}

#[test]
fn infinite_lives_never_lose_a_life() {
    let mut a = app("CRANE\nPLANE", config(Gamemode::InfiniteLives, 2, 2, 1));
    start_from_title(&mut a);
    for _ in 0..10 {
        a.tick();
    }
    assert_eq!(a.lives, 2);
    assert_eq!(a.active_screen, ActiveScreen::Game);
    assert_eq!(a.time_left, 1);
}

#[test]
fn practice_ticks_change_nothing() {
    let mut a = app("CRANE\nPLANE", config(Gamemode::Practice, 2, 5, 2));
    start_from_title(&mut a);
    for _ in 0..100 {
        a.tick();
        assert_eq!(a.time_left, 5);
        assert_eq!(a.lives, 3);
    }
}

#[test]
fn generated_prompts_are_common_enough() {
    let d = Dictionary::load("CRANE\nPLANE\nAPPLE\nBANANA\nCANE");
    for min in [1, 2, 3, 4] {
        for _ in 0..20 {
            let p = generate_prompt(&d, min);
            assert!(is_valid_prompt(&d, &p, min), "prompt {:?} for {}", p, min);
        }
    }
}

#[test]
fn pause_freezes_and_resume_continues() {
    let mut a = app("CRANE\nPLANE", config(Gamemode::LimitedLives, 2, 10, 2));
    start_from_title(&mut a);
    a.tick();
    a.tick();
    assert_eq!(a.time_left, 8);
    assert_eq!(a.handle_key(Key::Esc), Flow::Continue);
    assert!(a.paused);
    for _ in 0..5 {
        a.tick();
    }
    assert_eq!(a.time_left, 8);
    a.handle_key(Key::Esc);
    assert!(!a.paused);
    a.tick();
    assert_eq!(a.time_left, 7);
}

#[test]
fn restart_from_pause_menu_resets_round() {
    let mut a = app("CRANE\nPLANE", config(Gamemode::LimitedLives, 2, 10, 2));
    start_from_title(&mut a);
    a.tick();
    a.tick();
    a.input.string = "CR".to_string();
    a.handle_key(Key::Esc);
    a.handle_key(Key::Down);
    a.handle_key(Key::Down);
    assert_eq!(a.pause_list.items[a.pause_list.selected.unwrap()], PauseItem::Restart);
    assert_eq!(a.handle_key(Key::Enter), Flow::Continue);
    assert!(!a.paused);
    assert_eq!(a.time_left, 10);
    assert_eq!(a.input.string, "");
    assert_eq!(a.active_screen, ActiveScreen::Game);
    assert!(is_valid_prompt(&a.dictionary, &a.prompt, 2));
}

#[test]
fn pause_menu_entries() {
    let mut a = app("CRANE\nPLANE", config(Gamemode::LimitedLives, 2, 10, 2));
    start_from_title(&mut a);
    a.handle_key(Key::Esc);
    a.handle_key(Key::Char('l'));
    assert!(!a.paused);
    a.handle_key(Key::Esc);
    a.handle_key(Key::Char('j'));
    a.handle_key(Key::Right);
    assert_eq!(a.active_screen, ActiveScreen::Title);
    assert!(!a.paused);
    a.handle_key(Key::Enter);
    a.handle_key(Key::Esc);
    a.handle_key(Key::Up);
    a.handle_key(Key::Up);
    assert_eq!(a.pause_list.selected, Some(3));
    assert_eq!(a.handle_key(Key::Enter), Flow::Quit);
    a.handle_key(Key::Char('q'));
    assert!(!a.paused);
}

#[test]
fn title_menu_routes_entries() {
    let mut a = app("CRANE\nPLANE", config(Gamemode::LimitedLives, 2, 10, 2));
    assert_eq!(a.title_list.items, vec![TitleItem::Start, TitleItem::Settings, TitleItem::Quit]);
    assert_eq!(a.title_list.selected, Some(0));
    a.handle_key(Key::Char('j'));
    assert_eq!(a.handle_key(Key::Enter), Flow::Continue);
    assert_eq!(a.active_screen, ActiveScreen::Settings);
    a.handle_key(Key::Esc);
    assert_eq!(a.active_screen, ActiveScreen::Title);
    a.handle_key(Key::Down);
    assert_eq!(a.handle_key(Key::Char('l')), Flow::Quit);
    a.handle_key(Key::Char('k'));
    a.handle_key(Key::Up);
    assert_eq!(a.title_list.selected, Some(0));
    assert_eq!(a.handle_key(Key::Right), Flow::Continue);
    assert_eq!(a.active_screen, ActiveScreen::Game);
    assert_eq!(a.lives, 3);
}

#[test]
fn title_q_quits() {
    let mut a = app("CRANE\nPLANE", config(Gamemode::LimitedLives, 2, 10, 2));
    assert_eq!(a.handle_key(Key::Char('q')), Flow::Quit);
    assert_eq!(a.active_screen, ActiveScreen::Title);
}

#[test]
fn typing_editing_and_submitting() {
    let mut a = app("CRANE\nPLANE", config(Gamemode::LimitedLives, 2, 10, 2));
    start_from_title(&mut a);
    a.prompt = "AN".to_string();
    for c in "planex".chars() {
        a.handle_key(Key::Char(c));
    }
    assert_eq!(a.input.string, "planex");
    a.handle_key(Key::Enter);
    assert_eq!(a.input.string, "planex");
    assert_eq!(a.prompt, "AN");
    a.handle_key(Key::Backspace);
    assert_eq!(a.input.string, "plane");
    a.tick();
    assert_eq!(a.time_left, 9);
    a.handle_key(Key::Enter);
    assert_eq!(a.input.string, "");
    assert_eq!(a.time_left, 10);
    assert_eq!(a.lives, 3);
    assert!(is_valid_prompt(&a.dictionary, &a.prompt, 2));
    a.handle_key(Key::Backspace);
    assert_eq!(a.input.string, "");
}

#[test]
fn setup_errors() {
    let mut cfg = config(Gamemode::LimitedLives, 2, 10, 2);
    cfg.max_lives = 2;
    assert!(matches!(
        App::new(Dictionary::load("CRANE\nPLANE"), cfg),
        Err(SetupError::TooManyLives)
    ));
    let cfg = config(Gamemode::LimitedLives, 3, 10, 2);
    assert!(matches!(
        App::new(Dictionary::load("CRANE\nPLANE"), cfg),
        Err(SetupError::DictionaryTooSparse)
    ));
}

#[test]
fn new_app_starts_on_title() {
    let mut a = match App::new(
        Dictionary::load("CRANE\nPLANE"),
        config(Gamemode::LimitedLives, 2, 10, 2),
    ) {
        Ok(a) => a,
        Err(e) => panic!("setup failed: {:?}", e),
    };
    assert_eq!(a.title_list.selected, None);
    assert_eq!(a.pause_list.selected, None);
    assert_eq!(a.handle_key(Key::Enter), Flow::Continue);
    assert_eq!(a.active_screen, ActiveScreen::Title);
    a.select_first_entries();
    assert_eq!(a.title_list.selected, Some(0));
    assert_eq!(a.pause_list.selected, Some(0));
    assert_eq!(a.active_screen, ActiveScreen::Title);
    assert_eq!(a.lives, 3);
    assert_eq!(a.time_left, 10);
    assert!(!a.paused);
    assert_eq!(a.prompt, "");
    assert_eq!(
        a.pause_list.items,
        vec![PauseItem::Resume, PauseItem::MainMenu, PauseItem::Restart, PauseItem::Quit]
    );
}

#[test]
fn default_config_and_input() {
    let c = Config::default();
    assert_eq!(c.gamemode, Gamemode::LimitedLives);
    assert_eq!(c.min_wpp, 500);
    assert_eq!(c.ticks_per_turn, 320);
    assert_eq!(c.starting_lives, 2);
    assert_eq!(c.max_lives, 3);
    assert_eq!(c.list_highlight_symbol, " ");
    let i = Input::default();
    assert_eq!(i.string, "");
    assert!(i.messages.is_empty());
}

#[test]
fn fragments_from_draws() {
    assert_eq!(fragment_from_draws(&vec![0, 25]), "AZ");
    assert_eq!(fragment_from_draws(&vec![2, 17, 0]), "CRA");
    assert_eq!(fragment_from_draws(&vec![]), "");
}

#[test]
fn candidate_length_follows_the_coin() {
    let d = Dictionary::load("CRANE\nPLANE");
    assert_eq!(candidate_from_draws(&d, 2, 0, &vec![0, 13, 4]), Some("ANE".to_string()));
    assert_eq!(candidate_from_draws(&d, 2, 1, &vec![0, 13, 4]), Some("AN".to_string()));
    assert_eq!(candidate_from_draws(&d, 2, 4, &vec![0, 13, 25]), Some("AN".to_string()));
    assert_eq!(candidate_from_draws(&d, 2, 0, &vec![0, 13, 25]), None);
    assert_eq!(candidate_from_draws(&d, 3, 1, &vec![0, 13, 4]), None);
}

#[test]
fn first_supported_searches_in_order() {
    let d = Dictionary::load("CRANE\nPLANE");
    assert_eq!(first_supported(&d, 2), Some("AN".to_string()));
    assert_eq!(first_supported(&d, 1), Some("AN".to_string()));
    assert_eq!(first_supported(&d, 3), None);
    let d = Dictionary::load("XYZ");
    assert_eq!(first_supported(&d, 1), Some("XY".to_string()));
    let d = Dictionary::load("X");
    assert_eq!(first_supported(&d, 1), None);
    assert_eq!(first_supported(&d, 0), Some("AA".to_string()));
}
