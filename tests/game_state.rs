use pokemon_raycaster::game_state::{GameState, GameStateManager, MenuKeys, PadButton};

fn no_keys() -> MenuKeys {
    MenuKeys {
        enter: false,
        space: false,
        escape: false,
        left: false,
        right: false,
        up: false,
        down: false,
        r: false,
    }
}

#[test]
fn starts_on_welcome_screen() {
    let m = GameStateManager::new();
    assert_eq!(m.current_state, GameState::Welcome);
    assert_eq!(m.selected_level, 0);
    assert_eq!(m.selected_menu_option, 0);
    assert_eq!(m.menu_options, vec!["Iniciar Aventura", "Seleccionar Región", "Salir"]);
    assert!(m.handles_menu_input());
}

#[test]
fn maze_sizes_by_level() {
    let mut m = GameStateManager::new();
    let mut sizes = vec![];
    for level in [0, 1, 2, 3, 99] {
        m.selected_level = level;
        sizes.push(m.get_maze_size());
    }
    assert_eq!(sizes, vec![(4, 4), (8, 8), (12, 12), (8, 8), (8, 8)]);
}

#[test]
fn level_info_by_level() {
    let mut m = GameStateManager::new();
    assert_eq!(
        m.get_level_info(),
        ("Centro Pokémon", "Un laberinto básico para entrenadores novatos", "⭐ FÁCIL")
    );
    m.selected_level = 2;
    assert_eq!(
        m.get_level_info(),
        ("Torre Victoria", "El desafío final para maestros Pokémon", "⭐⭐⭐ DIFÍCIL")
    );
    m.selected_level = 7;
    assert_eq!(m.get_level_info().0, "Cueva Oscura");
}

#[test]
fn welcome_buttons() {
    let mut m = GameStateManager::new();
    assert!(!m.handle_button(PadButton::East));
    assert_eq!(m.current_state, GameState::Welcome);
    assert!(m.handle_button(PadButton::Start));
    assert_eq!(m.current_state, GameState::LevelSelect);
    let mut m2 = GameStateManager::new();
    assert!(m2.handle_button(PadButton::South));
    assert_eq!(m2.current_state, GameState::LevelSelect);
}

#[test]
fn level_select_buttons_stay_in_range() {
    let mut m = GameStateManager::new();
    m.current_state = GameState::LevelSelect;
    assert!(!m.handle_button(PadButton::DPadLeft));
    assert_eq!(m.selected_level, 0);
    assert!(!m.handle_button(PadButton::DPadRight));
    assert!(!m.handle_button(PadButton::DPadDown));
    assert!(!m.handle_button(PadButton::DPadRight));
    assert_eq!(m.selected_level, 2);
    assert!(!m.handle_button(PadButton::DPadUp));
    assert_eq!(m.selected_level, 1);
    assert!(!m.handle_button(PadButton::North));
    assert_eq!(m.current_state, GameState::LevelSelect);
    assert!(m.handle_button(PadButton::South));
    assert_eq!(m.current_state, GameState::Playing);
    assert!(!m.handles_menu_input());
}

#[test]
fn level_select_back_button() {
    let mut m = GameStateManager::new();
    m.current_state = GameState::LevelSelect;
    assert!(m.handle_button(PadButton::East));
    assert_eq!(m.current_state, GameState::Welcome);
}

#[test]
fn victory_buttons() {
    for (b, s) in [
        (PadButton::East, GameState::Welcome),
        (PadButton::Select, GameState::Welcome),
        (PadButton::South, GameState::Playing),
        (PadButton::North, GameState::Playing),
    ] {
        let mut m = GameStateManager::new();
        m.current_state = GameState::Victory;
        assert!(m.handle_button(b));
        assert_eq!(m.current_state, s);
    }
    let mut m = GameStateManager::new();
    m.current_state = GameState::Victory;
    assert!(!m.handle_button(PadButton::Start));
    assert_eq!(m.current_state, GameState::Victory);
}

#[test]
fn playing_ignores_menu_input() {
    let mut m = GameStateManager::new();
    m.current_state = GameState::Playing;
    assert!(!m.handle_button(PadButton::South));
    m.handle_keys(MenuKeys { escape: true, enter: true, ..no_keys() });
    assert_eq!(m.current_state, GameState::Playing);
}

#[test]
fn welcome_keys() {
    let mut m = GameStateManager::new();
    m.handle_keys(no_keys());
    assert_eq!(m.current_state, GameState::Welcome);
    m.handle_keys(MenuKeys { space: true, ..no_keys() });
    assert_eq!(m.current_state, GameState::LevelSelect);
}

#[test]
fn level_select_keys() {
    let mut m = GameStateManager::new();
    m.current_state = GameState::LevelSelect;
    m.handle_keys(MenuKeys { right: true, down: true, ..no_keys() });
    assert_eq!(m.selected_level, 2);
    m.handle_keys(MenuKeys { right: true, down: true, ..no_keys() });
    assert_eq!(m.selected_level, 2);
    m.handle_keys(MenuKeys { left: true, right: true, up: true, ..no_keys() });
    assert_eq!(m.selected_level, 1);
    m.handle_keys(MenuKeys { enter: true, escape: true, ..no_keys() });
    assert_eq!(m.current_state, GameState::Welcome);
    m.current_state = GameState::LevelSelect;
    m.handle_keys(MenuKeys { enter: true, ..no_keys() });
    assert_eq!(m.current_state, GameState::Playing);
}

#[test]
fn victory_keys() {
    let mut m = GameStateManager::new();
    m.current_state = GameState::Victory;
    m.handle_keys(MenuKeys { escape: true, r: true, ..no_keys() });
    assert_eq!(m.current_state, GameState::Playing);
    m.current_state = GameState::Victory;
    m.handle_keys(MenuKeys { escape: true, ..no_keys() });
    assert_eq!(m.current_state, GameState::Welcome);
}
