use pix::app::app;
use pix::editor::{Editor, EditorError, EditorMessage, Fill, Redraw};
use pix::pixel::Pixel;
use pix::position::Position;

fn px(x: i64, y: i64, color: &str) -> Pixel {
    Pixel { color: color.to_string(), position: Position { x, y } }
}

fn draw_at(e: &mut Editor, x: i64, y: i64, color: &str) {
    e.position = Position { x, y };
    e.change_pixel_color(color.to_string());
    e.draw_pixel();
}

#[test]
fn fresh_editor_is_empty() {
    let e = Editor::create();
    assert!(e.pixels.is_empty());
    assert!(e.redo.is_empty());
    assert_eq!(e.position, Position { x: 0, y: 0 });
    assert_eq!(e.settings.canvas_width, 800);
    assert_eq!(e.settings.canvas_height, 640);
    assert_eq!(e.settings.pixel_width, 32);
    assert_eq!(e.settings.pixel_height, 32);
    assert_eq!(e.settings.pixel_color, "#000000");
}

#[test]
fn draw_uses_position_and_color() {
    let mut e = Editor::create();
    draw_at(&mut e, 64, 32, "#ff0000");
    assert_eq!(e.pixels, vec![px(64, 32, "#ff0000")]);
}

#[test]
fn undo_then_redo_restores_history() {
    let mut e = Editor::create();
    draw_at(&mut e, 0, 0, "#111111");
    draw_at(&mut e, 32, 0, "#222222");
    draw_at(&mut e, 64, 0, "#333333");
    let before = e.pixels.clone();
    assert_eq!(e.undo(), Ok(()));
    assert_eq!(e.pixels, before[..2].to_vec());
    assert_eq!(e.redo, vec![px(64, 0, "#333333")]);
    assert_eq!(e.redo(), Ok(()));
    assert_eq!(e.pixels, before);
    assert!(e.redo.is_empty());
}

#[test]
fn undo_all_reverses_into_redo() {
    let mut e = Editor::create();
    draw_at(&mut e, 0, 0, "#111111");
    draw_at(&mut e, 32, 0, "#222222");
    draw_at(&mut e, 64, 0, "#333333");
    let drawn = e.pixels.clone();
    for _ in 0..drawn.len() {
        assert_eq!(e.undo(), Ok(()));
    }
    assert!(e.pixels.is_empty());
    let mut reversed = drawn.clone();
    reversed.reverse();
    assert_eq!(e.redo, reversed);
}

#[test]
fn clear_then_draw_starts_fresh() {
    let mut e = Editor::create();
    draw_at(&mut e, 0, 0, "#111111");
    draw_at(&mut e, 32, 0, "#222222");
    e.clear();
    assert!(e.pixels.is_empty());
    draw_at(&mut e, 96, 96, "#abcdef");
    draw_at(&mut e, 0, 32, "#fedcba");
    assert_eq!(e.pixels, vec![px(96, 96, "#abcdef"), px(0, 32, "#fedcba")]);
}

#[test]
fn clear_keeps_redo() {
    let mut e = Editor::create();
    draw_at(&mut e, 0, 0, "#111111");
    draw_at(&mut e, 32, 0, "#222222");
    e.undo().unwrap();
    e.clear();
    assert!(e.pixels.is_empty());
    assert_eq!(e.redo, vec![px(32, 0, "#222222")]);
}

#[test]
fn draw_discards_redo() {
    let mut e = Editor::create();
    draw_at(&mut e, 0, 0, "#111111");
    e.undo().unwrap();
    assert_eq!(e.redo.len(), 1);
    draw_at(&mut e, 32, 32, "#222222");
    assert!(e.redo.is_empty());
    assert_eq!(e.redo(), Err(EditorError::NoPixelsToRedo));
}

#[test]
fn undo_on_empty_history_fails() {
    let mut e = Editor::create();
    assert_eq!(e.undo(), Err(EditorError::NoPixelsToUndo));
    assert!(e.pixels.is_empty());
    assert!(e.redo.is_empty());
}

#[test]
fn redo_on_empty_list_fails() {
    let mut e = Editor::create();
    draw_at(&mut e, 0, 0, "#111111");
    assert_eq!(e.redo(), Err(EditorError::NoPixelsToRedo));
    assert_eq!(e.pixels, vec![px(0, 0, "#111111")]);
}

#[test]
fn clear_pixel_removes_entries_at_cursor() {
    let mut e = Editor::create();
    draw_at(&mut e, 0, 0, "#111111");
    draw_at(&mut e, 32, 0, "#222222");
    draw_at(&mut e, 0, 0, "#333333");
    draw_at(&mut e, 64, 0, "#444444");
    e.position = Position { x: 0, y: 0 };
    e.clear_pixel();
    assert_eq!(e.pixels, vec![px(32, 0, "#222222"), px(64, 0, "#444444")]);
}

#[test]
fn draw_lists_fills_in_history_order() {
    let mut e = Editor::create();
    draw_at(&mut e, 0, 0, "#111111");
    draw_at(&mut e, -32, 64, "#222222");
    let fills = e.draw();
    assert_eq!(
        fills,
        vec![
            Fill { x: 0, y: 0, width: 32, height: 32, color: "#111111".to_string() },
            Fill { x: -32, y: 64, width: 32, height: 32, color: "#222222".to_string() },
        ]
    );
}

#[test]
fn update_dispatches_messages() {
    let mut e = Editor::create();
    assert_eq!(e.update(EditorMessage::Undo), Err(EditorError::NoPixelsToUndo));
    assert_eq!(e.update(EditorMessage::Redo), Err(EditorError::NoPixelsToRedo));
    assert_eq!(
        e.update(EditorMessage::Move { client_x: 50, client_y: 60, left: 10, top: 10 }),
        Ok(Redraw::Nothing)
    );
    assert_eq!(e.update(EditorMessage::ChangeColor("#00ff00".to_string())), Ok(Redraw::Nothing));
    assert_eq!(e.update(EditorMessage::Draw), Ok(Redraw::All));
    assert_eq!(e.pixels, vec![px(32, 32, "#00ff00")]);
    assert_eq!(e.update(EditorMessage::Undo), Ok(Redraw::All));
    assert_eq!(e.update(EditorMessage::Redo), Ok(Redraw::All));
    assert_eq!(e.update(EditorMessage::Context), Ok(Redraw::All));
    assert!(e.pixels.is_empty());
    assert_eq!(e.update(EditorMessage::Draw), Ok(Redraw::All));
    assert_eq!(e.update(EditorMessage::Clear), Ok(Redraw::Grid));
    assert!(e.pixels.is_empty());
}

#[test]
fn heading_text() {
    assert_eq!(app(), "pix - a pixel editor");
}
