use vstd::prelude::*;
use vstd::view::View as _;
use crate::math::{Vec2, Vec3, ZeroExt, add2, add3, scale2, scale3, sub2};

verus! {

pub open spec fn fits(v: int) -> bool {
    i64::MIN <= v <= i64::MAX
}

/// The axonometric projection of a world point, for tile width `w`, height `h`
/// and edge height `eh`.
pub open spec fn project(w: int, h: int, eh: int, p: (int, int, int)) -> (int, int) {
    (p.0 * w - p.1 * w, p.0 * eh + p.1 * eh - p.2 * h)
}

/// Whether every step of the projection of `p` fits in `i64`.
pub open spec fn projectable(w: int, h: int, eh: int, p: (int, int, int)) -> bool {
    &&& fits(p.0 * w)
    &&& fits(p.1 * w)
    &&& fits(p.0 * w - p.1 * w)
    &&& fits(p.0 * eh)
    &&& fits(p.1 * eh)
    &&& fits(p.0 * eh + p.1 * eh)
    &&& fits(p.2 * h)
    &&& fits(p.0 * eh + p.1 * eh - p.2 * h)
}

/// Inclusive containment of a point in the rectangle from `start` to `end`.
pub open spec fn in_rect(start: (int, int), end: (int, int), p: (int, int)) -> bool {
    start.0 <= p.0 && start.1 <= p.1 && end.0 >= p.0 && end.1 >= p.1
}

/// A color as red, green, blue and alpha bytes.
#[derive(Clone, Copy, Debug, PartialEq, Eq)]
pub struct Color {
    pub r: u8,
    pub g: u8,
    pub b: u8,
    pub a: u8,
}

impl Color {
    pub open spec fn red_value() -> Color {
        Color { r: 230, g: 41, b: 56, a: 255 }
    }

    pub fn red() -> (r: Color)
        ensures
            r == Color::red_value(),
    {
        Color { r: 230, g: 41, b: 56, a: 255 }
    }
}

/// An axis-aligned rectangle: its corner and its size.
#[derive(Clone, Copy, Debug, PartialEq, Eq)]
pub struct Rect {
    pub x: i64,
    pub y: i64,
    pub w: i64,
    pub h: i64,
}

impl vstd::view::View for Rect {
    type V = (int, int, int, int);

    open spec fn view(&self) -> (int, int, int, int) {
        (self.x as int, self.y as int, self.w as int, self.h as int)
    }
}

/// A texture atlas cut into tiles of one size.
#[derive(Clone, Copy, Debug, PartialEq, Eq)]
pub struct Tilemap {
    pub tex_size: Vec2<i64>,
}

impl Tilemap {
    pub fn new(tex_size: Vec2<i64>) -> (r: Self)
        ensures
            r.tex_size == tex_size,
    {
        Tilemap { tex_size }
    }

    /// The source rectangle of the tile at grid position `p`.
    pub open spec fn tile_rect(self, p: (int, int)) -> (int, int, int, int) {
        (self.tex_size@.0 * p.0, self.tex_size@.1 * p.1, self.tex_size@.0, self.tex_size@.1)
    }

    pub fn tile(&self, tex_pos: Vec2<i64>) -> (r: Rect)
        requires
            fits(self.tex_size@.0 * tex_pos@.0),
            fits(self.tex_size@.1 * tex_pos@.1),
        ensures
            r@ == self.tile_rect(tex_pos@),
    {
        Rect {
            x: self.tex_size.x * tex_pos.x,
            y: self.tex_size.y * tex_pos.y,
            w: self.tex_size.x,
            h: self.tex_size.y,
        }
    }
}

/// One drawable primitive. World positions are in half units: a point `p` stands
/// for `p / 2` world units, so the center of every cube edge is a whole number.
#[derive(Clone, Copy, Debug, PartialEq, Eq)]
pub enum Element {
    Line { from: Vec3<i64>, to: Vec3<i64>, color: Color },
    CubeSprite { pos: Vec3<i64>, scale: i64, tex_pos: Vec2<i64> },
}

/// What to hand to the renderer for one element, relative to the frame. Positions
/// are in half pixels; sizes and the atlas rectangle are in pixels.
#[derive(Clone, Copy, Debug, PartialEq, Eq)]
pub enum DrawCommand {
    Line { from: Vec2<i64>, to: Vec2<i64>, color: Color },
    Quad { source: Rect, dest_pos: Vec2<i64>, dest_size: Vec2<i64> },
}

/// A draw command with its coordinates as mathematical integers.
pub enum Drawing {
    Line { from: (int, int), to: (int, int), color: Color },
    Quad { source: (int, int, int, int), dest_pos: (int, int), dest_size: (int, int) },
}

pub open spec fn drawing_of(c: Option<DrawCommand>) -> Option<Drawing> {
    match c {
        None => None,
        Some(DrawCommand::Line { from, to, color }) => Some(Drawing::Line { from: from@, to: to@, color }),
        Some(DrawCommand::Quad { source, dest_pos, dest_size }) => Some(
            Drawing::Quad { source: source@, dest_pos: dest_pos@, dest_size: dest_size@ },
        ),
    }
}

/// The projection parameters, the viewport of the current frame and the sprite atlas.
///
/// `width`, `height` and `edge_height` are pixels per world unit. A world point in
/// half units projects to half pixels with the same formula, since the projection is
/// linear. `center`, `frame_start` and `frame_end` are in half pixels and `size` in
/// pixels, so half the screen is `size` half pixels.
pub struct View {
    pub width: i64,
    pub height: i64,
    pub edge_height: i64,
    pub center: Vec2<i64>,
    pub size: Vec2<i64>,
    pub frame_start: Vec2<i64>,
    pub frame_end: Vec2<i64>,
    pub cube_tilemap: Tilemap,
}

impl View {
    pub fn new(width: i64, height: i64, edge_height: i64, cube_tilemap: Tilemap) -> (r: Self)
        ensures
            r.width == width,
            r.height == height,
            r.edge_height == edge_height,
            r.center@ == (0int, 0int),
            r.size@ == (0int, 0int),
            r.frame_start@ == (0int, 0int),
            r.frame_end@ == (0int, 0int),
            r.cube_tilemap == cube_tilemap,
    {
        View {
            width,
            height,
            edge_height,
            center: Vec2::zero(),
            size: Vec2::zero(),
            frame_start: Vec2::zero(),
            frame_end: Vec2::zero(),
            cube_tilemap,
        }
    }

    pub open spec fn proj(&self, p: (int, int, int)) -> (int, int) {
        project(self.width as int, self.height as int, self.edge_height as int, p)
    }

    pub open spec fn can_project(&self, p: (int, int, int)) -> bool {
        projectable(self.width as int, self.height as int, self.edge_height as int, p)
    }

    pub open spec fn in_frame(&self, p: (int, int)) -> bool {
        in_rect(self.frame_start@, self.frame_end@, p)
    }

    pub fn contains_point(&self, point: Vec2<i64>) -> (r: bool)
        ensures
            r == self.in_frame(point@),
    {
        self.frame_start.x <= point.x && self.frame_start.y <= point.y && self.frame_end.x
            >= point.x && self.frame_end.y >= point.y
    }

    pub fn translate_vec(&self, source: Vec3<i64>) -> (r: Vec2<i64>)
        requires
            self.can_project(source@),
        ensures
            r@ == self.proj(source@),
    {
        Vec2::new(
            source.x * self.width - source.y * self.width,
            source.x * self.edge_height + source.y * self.edge_height - source.z * self.height,
        )
    }

    /// The offset, in half pixels, from a sprite's projected anchor to the corner where
    /// it is drawn: left by its width, up by half the tile height and one edge height.
    pub open spec fn sprite_offset(&self, s: int) -> (int, int) {
        (s * (-self.width * 2), s * (-self.height - self.edge_height * 2))
    }

    /// The size on screen, in pixels, of a sprite drawn at scale `s`.
    pub open spec fn sprite_size(&self, s: int) -> (int, int) {
        (s * self.width * 2, s * (self.height + self.edge_height * 2))
    }

    /// What drawing `e` in the current frame hands to the renderer: a line only when
    /// both of its projected ends lie in the frame, a sprite always.
    pub open spec fn plan(&self, e: Element) -> Option<Drawing> {
        match e {
            Element::Line { from, to, color } => {
                let f = self.proj(from@);
                let t = self.proj(to@);
                if self.in_frame(f) && self.in_frame(t) {
                    Some(
                        Drawing::Line {
                            from: sub2(f, self.frame_start@),
                            to: sub2(t, self.frame_start@),
                            color,
                        },
                    )
                } else {
                    None
                }
            },
            Element::CubeSprite { pos, scale, tex_pos } => Some(
                Drawing::Quad {
                    source: self.cube_tilemap.tile_rect(tex_pos@),
                    dest_pos: add2(
                        sub2(self.proj(pos@), self.frame_start@),
                        self.sprite_offset(scale as int),
                    ),
                    dest_size: self.sprite_size(scale as int),
                },
            ),
        }
    }

    /// Whether every step of drawing `e` fits in `i64`.
    pub open spec fn can_draw(&self, e: Element) -> bool {
        let w = self.width as int;
        let h = self.height as int;
        let eh = self.edge_height as int;
        match e {
            Element::Line { from, to, color } => {
                let f = self.proj(from@);
                let t = self.proj(to@);
                &&& self.can_project(from@)
                &&& self.can_project(to@)
                &&& self.in_frame(f) && self.in_frame(t) ==> fits(f.0 - self.frame_start@.0) && fits(
                    f.1 - self.frame_start@.1,
                ) && fits(t.0 - self.frame_start@.0) && fits(t.1 - self.frame_start@.1)
            },
            Element::CubeSprite { pos, scale, tex_pos } => {
                let s = scale as int;
                let c = sub2(self.proj(pos@), self.frame_start@);
                let o = self.sprite_offset(s);
                &&& self.can_project(pos@)
                &&& fits(c.0) && fits(c.1)
                &&& fits(-w) && fits(-w * 2) && fits(-h)
                &&& fits(-h - eh * 2)
                &&& fits(o.0) && fits(o.1)
                &&& fits(c.0 + o.0) && fits(c.1 + o.1)
                &&& fits(s * w) && fits(s * w * 2)
                &&& fits(eh * 2) && fits(h + eh * 2) && fits(s * (h + eh * 2))
                &&& fits(self.cube_tilemap.tex_size@.0 * tex_pos@.0)
                &&& fits(self.cube_tilemap.tex_size@.1 * tex_pos@.1)
            },
        }
    }

    pub fn draw(&self, element: &Element) -> (r: Option<DrawCommand>)
        requires
            self.can_draw(*element),
        ensures
            drawing_of(r) == self.plan(*element),
    {
        match element {
            Element::Line { from, to, color } => {
                let from = self.translate_vec(*from);
                let to = self.translate_vec(*to);
                if !self.contains_point(from) || !self.contains_point(to) {
                    return None;
                }
                let from = from.sub(self.frame_start);
                let to = to.sub(self.frame_start);
                Some(DrawCommand::Line { from, to, color: *color })
            },
            Element::CubeSprite { pos, scale, tex_pos } => {
                let scale = *scale;
                let center_pos = self.translate_vec(*pos).sub(self.frame_start);
                let offset = Vec2::new(
                    scale * (-self.width * 2),
                    scale * (-self.height - self.edge_height * 2),
                );
                let abs_pos = center_pos.add(offset);
                let dest_size = Vec2::new(
                    scale * self.width * 2,
                    scale * (self.height + self.edge_height * 2),
                );
                let source = self.cube_tilemap.tile(*tex_pos);
                Some(DrawCommand::Quad { source, dest_pos: abs_pos, dest_size })
            },
        }
    }

    /// Centers the frame on the projection of `center` (in half units), with the
    /// given screen size in pixels; the frame reaches `size` half pixels each way.
    pub fn update_size(&mut self, size: Vec2<i64>, center: Vec3<i64>)
        requires
            old(self).can_project(center@),
            fits(old(self).proj(center@).0 - size@.0),
            fits(old(self).proj(center@).1 - size@.1),
            fits(old(self).proj(center@).0 + size@.0),
            fits(old(self).proj(center@).1 + size@.1),
        ensures
            final(self).center@ == old(self).proj(center@),
            final(self).size == size,
            final(self).frame_start@ == sub2(old(self).proj(center@), size@),
            final(self).frame_end@ == add2(old(self).proj(center@), size@),
            final(self).width == old(self).width,
            final(self).height == old(self).height,
            final(self).edge_height == old(self).edge_height,
            final(self).cube_tilemap == old(self).cube_tilemap,
    {
        self.center = self.translate_vec(center);
        self.size = size;
        self.frame_start = self.center.sub(size);
        self.frame_end = self.center.add(size);
    }
}

/// The projection is linear: it maps a sum to the sum of the images and a scaled
/// point to the scaled image, with no translation term.
pub proof fn lemma_projection_linear(view: &View, a: Vec3<i64>, b: Vec3<i64>, s: i64)
    ensures
        view.proj(add3(a@, b@)) == add2(view.proj(a@), view.proj(b@)),
        view.proj(scale3(a@, s as int)) == scale2(view.proj(a@), s as int),
{
    let w = view.width as int;
    let h = view.height as int;
    let eh = view.edge_height as int;
    let (a0, a1, a2) = a@;
    let (b0, b1, b2) = b@;
    let si = s as int;
    assert((a0 + b0) * w - (a1 + b1) * w == (a0 * w - a1 * w) + (b0 * w - b1 * w))
        by (nonlinear_arith);
    assert((a0 + b0) * eh + (a1 + b1) * eh - (a2 + b2) * h == (a0 * eh + a1 * eh - a2 * h) + (
    b0 * eh + b1 * eh - b2 * h)) by (nonlinear_arith);
    assert((a0 * si) * w - (a1 * si) * w == (a0 * w - a1 * w) * si) by (nonlinear_arith);
    assert((a0 * si) * eh + (a1 * si) * eh - (a2 * si) * h == (a0 * eh + a1 * eh - a2 * h) * si)
        by (nonlinear_arith);
}


/// The two ends of each drawn edge of a cube centered on the origin with half side
/// `h`: two bottom edges, the four top edges, and three vertical ones. The edges that
/// meet the corner at `(-h, -h, -h)` are hidden behind the cube and left out.
pub open spec fn cube_edges(h: int) -> Seq<((int, int, int), (int, int, int))> {
    seq![
        ((h, h, -h), (h, -h, -h)),
        ((h, h, -h), (-h, h, -h)),
        ((-h, -h, h), (h, -h, h)),
        ((-h, -h, h), (-h, h, h)),
        ((h, h, h), (h, -h, h)),
        ((h, h, h), (-h, h, h)),
        ((h, h, h), (h, h, -h)),
        ((h, -h, h), (h, -h, -h)),
        ((-h, h, h), (-h, h, -h)),
    ]
}

/// For a nonzero half side the edges are nine distinct segments, each joining two
/// corners of the cube that differ in exactly one coordinate.
pub proof fn lemma_cube_edges_distinct(h: int)
    requires
        h != 0,
    ensures
        forall|i: int, j: int|
            0 <= i < 9 && 0 <= j < 9 && i != j ==> {
                let (a, b) = #[trigger] cube_edges(h)[i];
                let (c, d) = #[trigger] cube_edges(h)[j];
                !(a == c && b == d) && !(a == d && b == c)
            },
        forall|i: int|
            0 <= i < 9 ==> {
                let (a, b) = #[trigger] cube_edges(h)[i];
                (a.0 != b.0) as int + (a.1 != b.1) as int + (a.2 != b.2) as int == 1
            },
{
    assert(h != -h);
}

/// Whether `e` is a red line from `from` to `to`.
pub open spec fn is_red_line(e: Element, from: (int, int, int), to: (int, int, int)) -> bool {
    match e {
        Element::Line { from: f, to: t, color } => f@ == from && t@ == to && color
            == Color::red_value(),
        _ => false,
    }
}

/// Whether every corner of the cube around `p` with half side `h` fits in `i64`.
pub open spec fn cube_fits(p: (int, int, int), h: int) -> bool {
    &&& fits(p.0 + h) && fits(p.0 - h)
    &&& fits(p.1 + h) && fits(p.1 - h)
    &&& fits(p.2 + h) && fits(p.2 - h)
}

/// A scene: its view and the elements it draws, in the order they were added.
pub struct Game {
    pub view: View,
    pub elements: Vec<Element>,
}

impl Game {
    pub fn new(view: View) -> (r: Self)
        ensures
            r.view == view,
            r.elements@ == Seq::<Element>::empty(),
    {
        Game { view, elements: Vec::new() }
    }

    pub fn line(&mut self, from: Vec3<i64>, to: Vec3<i64>)
        ensures
            final(self).view == old(self).view,
            final(self).elements@ == old(self).elements@.push(
                Element::Line { from, to, color: Color::red_value() },
            ),
    {
        self.elements.push(Element::Line { from, to, color: Color::red() });
    }

    /// Adds edges of the cube centered on `pos` with side `size` as lines. `pos` is
    /// in half units and `size` in whole units, so each corner lies at `pos ± size`.
    /// The three edges that meet the corner farthest from the viewer are left out.
    pub fn wire_cube(&mut self, pos: Vec3<i64>, size: i64)
        requires
            cube_fits(pos@, size as int),
        ensures
            final(self).view == old(self).view,
            final(self).elements@.len() == old(self).elements@.len() + 9,
            forall|i: int|
                0 <= i < old(self).elements@.len() ==> final(self).elements@[i] == old(
                    self,
                ).elements@[i],
            forall|i: int|
                #![trigger cube_edges(size as int)[i]]
                0 <= i < 9 ==> is_red_line(
                    final(self).elements@[old(self).elements@.len() + i],
                    add3(pos@, cube_edges(size as int)[i].0),
                    add3(pos@, cube_edges(size as int)[i].1),
                ),
    {
        let h = size;
        let n = Ghost(self.elements@.len());
        // Bottom
        self.line(pos.add(Vec3::new(h, h, -h)), pos.add(Vec3::new(h, -h, -h)));
        self.line(pos.add(Vec3::new(h, h, -h)), pos.add(Vec3::new(-h, h, -h)));
        // Top
        self.line(pos.add(Vec3::new(-h, -h, h)), pos.add(Vec3::new(h, -h, h)));
        self.line(pos.add(Vec3::new(-h, -h, h)), pos.add(Vec3::new(-h, h, h)));
        self.line(pos.add(Vec3::new(h, h, h)), pos.add(Vec3::new(h, -h, h)));
        self.line(pos.add(Vec3::new(h, h, h)), pos.add(Vec3::new(-h, h, h)));
        // Sides
        self.line(pos.add(Vec3::new(h, h, h)), pos.add(Vec3::new(h, h, -h)));
        self.line(pos.add(Vec3::new(h, -h, h)), pos.add(Vec3::new(h, -h, -h)));
        self.line(pos.add(Vec3::new(-h, h, h)), pos.add(Vec3::new(-h, h, -h)));
        proof {
            let e = cube_edges(h as int);
            assert forall|i: int| 0 <= i < 9 implies is_red_line(
                self.elements@[n@ + i],
                add3(pos@, #[trigger] e[i].0),
                add3(pos@, e[i].1),
            ) by {
                if i == 0 {
                } else if i == 1 {
                } else if i == 2 {
                } else if i == 3 {
                } else if i == 4 {
                } else if i == 5 {
                } else if i == 6 {
                } else if i == 7 {
                } else {
                }
            }
        }
    }

    pub fn cube_sprite(&mut self, pos: Vec3<i64>, scale: i64, tex_pos: Vec2<i64>)
        ensures
            final(self).view == old(self).view,
            final(self).elements@ == old(self).elements@.push(
                Element::CubeSprite { pos, scale, tex_pos },
            ),
    {
        self.elements.push(Element::CubeSprite { pos, scale, tex_pos });
    }
}

} // verus!
