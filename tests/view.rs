use orthoview::math::{Vec2, Vec3};
use orthoview::view::{Color, DrawCommand, Element, Game, Rect, Tilemap, View};

fn quarter_pixel_view() -> View {
    View::new(400, 450, 225, Tilemap::new(Vec2::new(64, 72)))
}

#[test]
fn projection_of_unit_points() {
    let view = quarter_pixel_view();
    assert_eq!(view.translate_vec(Vec3::new(0, 0, 0)), Vec2::new(0, 0));
    assert_eq!(view.translate_vec(Vec3::new(2, 0, 0)), Vec2::new(800, 450));
    assert_eq!(view.translate_vec(Vec3::new(0, 2, 0)), Vec2::new(-800, 450));
    assert_eq!(view.translate_vec(Vec3::new(0, 0, 2)), Vec2::new(0, -900));
    assert_eq!(view.translate_vec(Vec3::new(1, 0, 0)), Vec2::new(400, 225));
}

#[test]
fn projection_is_linear() {
    let view = quarter_pixel_view();
    let a = Vec3::new(2, -3, 5);
    let b = Vec3::new(-1, 4, 7);
    let sum = view.translate_vec(a.add(b));
    assert_eq!(sum, view.translate_vec(a).add(view.translate_vec(b)));
    assert_eq!(view.translate_vec(a.mul(3)), view.translate_vec(a).mul(3));
}

#[test]
fn viewport_centered_on_focus() {
    let mut view = quarter_pixel_view();
    view.update_size(Vec2::new(800, 800), Vec3::new(0, 0, -2));
    assert_eq!(view.center, Vec2::new(0, 900));
    assert_eq!(view.size, Vec2::new(800, 800));
    assert_eq!(view.frame_start, Vec2::new(-800, 100));
    assert_eq!(view.frame_end, Vec2::new(800, 1700));
}

#[test]
fn containment_is_inclusive() {
    let mut view = quarter_pixel_view();
    view.update_size(Vec2::new(800, 800), Vec3::new(0, 0, -2));
    assert!(view.contains_point(Vec2::new(-800, 100)));
    assert!(view.contains_point(Vec2::new(800, 1700)));
    assert!(view.contains_point(Vec2::new(0, 900)));
    assert!(!view.contains_point(Vec2::new(801, 900)));
    assert!(!view.contains_point(Vec2::new(0, 99)));
}

fn small_frame_view() -> View {
    let mut view = View::new(5, 5, 5, Tilemap::new(Vec2::new(64, 72)));
    view.update_size(Vec2::new(50, 50), Vec3::new(6, 0, 0));
    view
}

#[test]
fn line_with_one_end_outside_is_dropped() {
    let view = small_frame_view();
    assert_eq!(view.frame_start, Vec2::new(-20, -20));
    assert_eq!(view.frame_end, Vec2::new(80, 80));
    let line = Element::Line {
        from: Vec3::new(0, 0, 0),
        to: Vec3::new(20, 0, 0),
        color: Color::red(),
    };
    assert_eq!(view.translate_vec(Vec3::new(0, 0, 0)), Vec2::new(0, 0));
    assert_eq!(view.translate_vec(Vec3::new(20, 0, 0)), Vec2::new(100, 100));
    assert_eq!(view.draw(&line), None);
}

#[test]
fn line_inside_is_drawn_relative_to_frame() {
    let view = small_frame_view();
    let line = Element::Line {
        from: Vec3::new(0, 0, 0),
        to: Vec3::new(2, 0, 0),
        color: Color::red(),
    };
    assert_eq!(
        view.draw(&line),
        Some(DrawCommand::Line {
            from: Vec2::new(20, 20),
            to: Vec2::new(30, 30),
            color: Color::red(),
        })
    );
}

#[test]
fn sprite_outside_frame_is_still_drawn() {
    let mut view = quarter_pixel_view();
    view.update_size(Vec2::new(800, 800), Vec3::new(0, 0, -2));
    assert!(!view.contains_point(view.translate_vec(Vec3::new(200, 0, 0))));
    let sprite = Element::CubeSprite {
        pos: Vec3::new(200, 0, 0),
        scale: 1,
        tex_pos: Vec2::new(2, 1),
    };
    assert_eq!(
        view.draw(&sprite),
        Some(DrawCommand::Quad {
            source: Rect { x: 128, y: 72, w: 64, h: 72 },
            dest_pos: Vec2::new(80000, 44000),
            dest_size: Vec2::new(800, 900),
        })
    );
}

#[test]
fn sprite_scale_multiplies_offset_and_size() {
    let mut view = View::new(96, 108, 54, Tilemap::new(Vec2::new(64, 72)));
    view.update_size(Vec2::new(0, 0), Vec3::new(0, 0, 0));
    let sprite = Element::CubeSprite {
        pos: Vec3::new(0, 0, 0),
        scale: 2,
        tex_pos: Vec2::new(0, 0),
    };
    assert_eq!(
        view.draw(&sprite),
        Some(DrawCommand::Quad {
            source: Rect { x: 0, y: 0, w: 64, h: 72 },
            dest_pos: Vec2::new(-384, -432),
            dest_size: Vec2::new(384, 432),
        })
    );
}

#[test]
fn tile_source_rectangles() {
    let map = Tilemap::new(Vec2::new(64, 72));
    assert_eq!(map.tile(Vec2::new(0, 0)), Rect { x: 0, y: 0, w: 64, h: 72 });
    assert_eq!(map.tile(Vec2::new(3, 2)), Rect { x: 192, y: 144, w: 64, h: 72 });
}

#[test]
fn scene_keeps_insertion_order() {
    let mut game = Game::new(quarter_pixel_view());
    assert!(game.elements.is_empty());
    game.cube_sprite(Vec3::new(0, 0, 0), 1, Vec2::new(0, 0));
    game.line(Vec3::new(0, 0, 0), Vec3::new(1, 0, 0));
    assert_eq!(game.elements.len(), 2);
    assert_eq!(
        game.elements[0],
        Element::CubeSprite { pos: Vec3::new(0, 0, 0), scale: 1, tex_pos: Vec2::new(0, 0) }
    );
    assert_eq!(
        game.elements[1],
        Element::Line { from: Vec3::new(0, 0, 0), to: Vec3::new(1, 0, 0), color: Color::red() }
    );
}

#[test]
fn wire_cube_adds_nine_edges() {
    let mut game = Game::new(quarter_pixel_view());
    game.wire_cube(Vec3::new(10, 20, 30), 2);
    assert_eq!(game.elements.len(), 9);
    assert_eq!(
        game.elements[0],
        Element::Line { from: Vec3::new(12, 22, 28), to: Vec3::new(12, 18, 28), color: Color::red() }
    );
    assert_eq!(
        game.elements[8],
        Element::Line { from: Vec3::new(8, 22, 32), to: Vec3::new(8, 22, 28), color: Color::red() }
    );
}

#[test]
fn unit_wire_cube_has_nine_distinct_edges() {
    let mut game = Game::new(quarter_pixel_view());
    game.wire_cube(Vec3::new(0, 0, 0), 1);
    assert_eq!(game.elements.len(), 9);
    assert_eq!(
        game.elements[2],
        Element::Line { from: Vec3::new(-1, -1, 1), to: Vec3::new(1, -1, 1), color: Color::red() }
    );
    for i in 0..9 {
        for j in 0..9 {
            if i != j {
                assert_ne!(game.elements[i], game.elements[j]);
            }
        }
    }
}

#[test]
fn sprite_offset_keeps_half_pixels() {
    let mut view = View::new(3, 3, 1, Tilemap::new(Vec2::new(64, 72)));
    view.update_size(Vec2::new(0, 0), Vec3::new(0, 0, 0));
    let sprite = Element::CubeSprite {
        pos: Vec3::new(0, 0, 0),
        scale: 1,
        tex_pos: Vec2::new(1, 0),
    };
    assert_eq!(
        view.draw(&sprite),
        Some(DrawCommand::Quad {
            source: Rect { x: 64, y: 0, w: 64, h: 72 },
            dest_pos: Vec2::new(-6, -5),
            dest_size: Vec2::new(6, 5),
        })
    );
}

#[test]
fn red_color_bytes() {
    assert_eq!(Color::red(), Color { r: 230, g: 41, b: 56, a: 255 });
}
