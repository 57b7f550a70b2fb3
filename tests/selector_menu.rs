use poligon::advanced::AdvancedApp;
use poligon::geometry::{box_contains, Point};
use poligon::selector::{menu_screen, MenuChoice, MenuScreen, Mode, PoligonApp};
use poligon::timing::{intro_prompt, since};
use poligon::{IntroPrompt, Signal};

#[test]
fn menu_welcome_fades() {
    assert_eq!(menu_screen(0), MenuScreen::Welcome(0));
    assert_eq!(menu_screen(500), MenuScreen::Welcome(127));
    assert_eq!(menu_screen(2000), MenuScreen::Welcome(255));
    assert_eq!(menu_screen(4500), MenuScreen::Welcome(127));
    assert_eq!(menu_screen(4999), MenuScreen::Welcome(0));
    assert_eq!(menu_screen(5000), MenuScreen::Choices);
}

#[test]
fn menu_start_is_fixed_once() {
    let mut p = PoligonApp::default();
    assert_eq!(p.menu_frame(1000), MenuScreen::Welcome(0));
    assert_eq!(p.menu_intro_start, Some(1000));
    assert_eq!(p.menu_frame(6000), MenuScreen::Choices);
    assert_eq!(p.menu_intro_start, Some(1000));
}

#[test]
fn selector_starts_modes() {
    let mut p = PoligonApp::default();
    assert_eq!(p.mode, Mode::Menu);
    p.select_mode(MenuChoice::Advanced, 100, 4);
    assert_eq!(p.mode, Mode::Advanced);
    assert!(p.advanced_state.as_ref().unwrap().show_intro);
    p.select_mode(MenuChoice::Classic, 200, 4);
    assert_eq!(p.mode, Mode::Advanced);
    assert!(p.classic_state.is_none());
}

#[test]
fn selector_wip_and_back() {
    let mut p = PoligonApp::default();
    p.select_mode(MenuChoice::WipBonus, 0, 0);
    assert_eq!(p.mode, Mode::Wip);
    p.leave_wip();
    assert_eq!(p.mode, Mode::Menu);
}

#[test]
fn selector_signals_only_after_game_over() {
    let mut p = PoligonApp::default();
    p.select_mode(MenuChoice::Advanced, 0, 4);
    p.apply_signal(Signal::Menu, 10, 4);
    assert_eq!(p.mode, Mode::Advanced);
    {
        let a: &mut AdvancedApp = p.advanced_state.as_mut().unwrap();
        a.show_intro = false;
        a.visible_time = 0;
        a.update(100, None);
        assert!(a.game_over);
        a.score = 9;
    }
    p.apply_signal(Signal::Restart, 200, 4);
    assert_eq!(p.mode, Mode::Advanced);
    let a = p.advanced_state.as_ref().unwrap();
    assert!(!a.game_over && a.show_intro);
    assert_eq!(a.score, 0);
    assert_eq!(a.visible_time, 30);
    assert_eq!(a.intro_start, 200);
}

#[test]
fn selector_menu_signal_drops_session() {
    let mut p = PoligonApp::default();
    p.select_mode(MenuChoice::Classic, 0, 4);
    {
        let c = p.classic_state.as_mut().unwrap();
        c.update(4000, None);
        c.update(24000, None);
        assert!(c.game_over);
    }
    p.apply_signal(Signal::Menu, 25000, 1);
    assert_eq!(p.mode, Mode::Menu);
    assert!(p.classic_state.is_none());
}

#[test]
fn timing_helpers() {
    assert_eq!(since(10, 3), 7);
    assert_eq!(since(3, 10), 0);
    assert_eq!(intro_prompt(1999), Some(IntroPrompt::Ready));
    assert_eq!(intro_prompt(2000), Some(IntroPrompt::Go));
    assert_eq!(intro_prompt(4000), None);
}

#[test]
fn boxes_are_closed() {
    assert!(box_contains(0, 0, 10, 10, Point { x: 10, y: 10 }));
    assert!(box_contains(0, 0, 10, 10, Point { x: 0, y: 0 }));
    assert!(!box_contains(0, 0, 10, 10, Point { x: 11, y: 5 }));
    assert!(!box_contains(0, 0, 10, 10, Point { x: 5, y: -1 }));
    assert!(box_contains(i64::MAX - 5, 0, 10, 10, Point { x: i64::MAX, y: 0 }));
}
