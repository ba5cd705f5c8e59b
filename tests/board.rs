use minesweeper::events::{decode_event, EventAction};
use minesweeper::game::{get_asset_coordinates, idx_to_row_column, EntityKind, Position, Scene, SceneState};
use minesweeper::requests::x11_copy_area;
use minesweeper::utils::rgba_to_bgra;

fn scene_with(mines: &[usize]) -> Scene {
    let mut s = Scene::new(1, 2, 3);
    let mut m = vec![false; 256];
    for &i in mines {
        m[i] = true;
    }
    s.reset_with_mines(m);
    s
}

#[test]
fn new_scene_is_covered_without_mines() {
    let s = Scene::new(10, 11, 12);
    assert_eq!(s.state, SceneState::Uninitialized);
    assert_eq!(s.displayed_entities.len(), 256);
    assert!(s.displayed_entities.iter().all(|&e| e == EntityKind::Covered));
    assert!(s.mines.iter().all(|&m| !m));
}

#[test]
fn reset_covers_everything() {
    let mut s = scene_with(&[0]);
    s.on_cell_clicked(100, 100, 1);
    s.reset();
    assert_eq!(s.mines.len(), 256);
    assert!(s.displayed_entities.iter().all(|&e| e == EntityKind::Covered));
}

#[test]
fn click_dispatch_left_button() {
    let mut s = scene_with(&[0]);
    match decode_event(&{
        let mut f = vec![0u8; 32];
        f[0] = 5;
        f[1] = 1;
        f[24] = 32;
        f[26] = 48;
        f
    }) {
        EventAction::Click { x, y, button } => s.on_cell_clicked(x, y, button),
        other => panic!("unexpected {:?}", other),
    }
    // (32, 48) is row 3, column 2: far from the one mine, so the fill spreads.
    assert_eq!(s.displayed_entities[3 * 16 + 2], EntityKind::Uncovered0);
    assert_eq!(s.displayed_entities[1], EntityKind::Uncovered1);
    assert_eq!(s.displayed_entities[16], EntityKind::Uncovered1);
    assert_eq!(s.displayed_entities[17], EntityKind::Uncovered1);
    assert_eq!(s.displayed_entities[0], EntityKind::MineIdle);
    assert_eq!(s.state, SceneState::Won);
}

#[test]
fn left_click_on_mine_loses() {
    let mut s = scene_with(&[5, 6]);
    s.on_cell_clicked(5 * 16 + 3, 2, 1);
    assert_eq!(s.state, SceneState::Lost);
    assert_eq!(s.displayed_entities[5], EntityKind::MineExploded);
    assert_eq!(s.displayed_entities[6], EntityKind::MineExploded);
    assert_eq!(s.displayed_entities[4], EntityKind::Uncovered1);
    assert_eq!(s.displayed_entities[7], EntityKind::Uncovered1);
    assert_eq!(s.displayed_entities[21], EntityKind::Uncovered2);
    assert_eq!(s.displayed_entities[255], EntityKind::Uncovered0);
}

#[test]
fn flood_stops_at_numbers() {
    // A wall of mines down column 8 keeps the fill on the left half.
    let wall: Vec<usize> = (0..16).map(|r| r * 16 + 8).collect();
    let mut s = scene_with(&wall);
    s.on_cell_clicked(0, 0, 1);
    assert_eq!(s.state, SceneState::Uninitialized);
    for r in 0..16 {
        for c in 0..7 {
            assert_eq!(s.displayed_entities[r * 16 + c], EntityKind::Uncovered0);
        }
        assert_ne!(s.displayed_entities[r * 16 + 7], EntityKind::Covered);
        assert_eq!(s.displayed_entities[r * 16 + 8], EntityKind::Covered);
        for c in 9..16 {
            assert_eq!(s.displayed_entities[r * 16 + c], EntityKind::Covered);
        }
    }
    assert_eq!(s.displayed_entities[7], EntityKind::Uncovered2);
    assert_eq!(s.displayed_entities[16 + 7], EntityKind::Uncovered3);
}

#[test]
fn right_click_toggles_flag() {
    let mut s = scene_with(&[0]);
    s.on_cell_clicked(20, 20, 3);
    assert_eq!(s.displayed_entities[17], EntityKind::Flagged);
    s.on_cell_clicked(20, 20, 1);
    assert_eq!(s.displayed_entities[17], EntityKind::Flagged);
    s.on_cell_clicked(20, 20, 3);
    assert_eq!(s.displayed_entities[17], EntityKind::Covered);
    s.on_cell_clicked(20, 20, 2);
    assert!(s.displayed_entities.iter().all(|&e| e == EntityKind::Covered));
}

#[test]
fn right_click_on_uncovered_does_nothing() {
    let mut s = scene_with(&[0]);
    s.on_cell_clicked(16, 0, 1);
    assert_eq!(s.displayed_entities[1], EntityKind::Uncovered1);
    s.on_cell_clicked(16, 0, 3);
    assert_eq!(s.displayed_entities[1], EntityKind::Uncovered1);
}

#[test]
fn render_draws_every_cell() {
    let mut s = scene_with(&[0]);
    s.on_cell_clicked(16, 0, 3);
    let bytes = s.render();
    assert_eq!(bytes.len(), 256 * 28);
    assert_eq!(&bytes[..28], &x11_copy_area(3, 1, 2, 0, 38, 0, 0, 16, 16)[..]);
    assert_eq!(&bytes[28..56], &x11_copy_area(3, 1, 2, 16, 38, 16, 0, 16, 16)[..]);
    let last = 255 * 28;
    assert_eq!(&bytes[last..], &x11_copy_area(3, 1, 2, 0, 38, 240, 240, 16, 16)[..]);
}

#[test]
fn asset_coordinates_table() {
    assert_eq!(get_asset_coordinates(EntityKind::Uncovered0), Position { x: 0, y: 22 });
    assert_eq!(get_asset_coordinates(EntityKind::Uncovered8), Position { x: 128, y: 22 });
    assert_eq!(get_asset_coordinates(EntityKind::Covered), Position { x: 0, y: 38 });
    assert_eq!(get_asset_coordinates(EntityKind::Flagged), Position { x: 16, y: 38 });
    assert_eq!(get_asset_coordinates(EntityKind::MineExploded), Position { x: 32, y: 40 });
    assert_eq!(get_asset_coordinates(EntityKind::MineIdle), Position { x: 64, y: 40 });
}

#[test]
fn index_to_row_and_column() {
    assert_eq!(idx_to_row_column(0), (0, 0));
    assert_eq!(idx_to_row_column(17), (1, 1));
    assert_eq!(idx_to_row_column(255), (15, 15));
}

#[test]
fn rgba_to_bgra_swaps_and_clears_alpha() {
    assert_eq!(rgba_to_bgra(&[1, 2, 3, 4, 5, 6, 7, 8]), vec![3, 2, 1, 0, 7, 6, 5, 0]);
    assert_eq!(rgba_to_bgra(&[]), Vec::<u8>::new());
}
