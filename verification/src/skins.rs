//! Player skins: the default Steve and Alex skins, the front view of a skin
//! (head, torso, arms and legs with their outer layers) and the head avatar.
//! An image is a list of rows of RGBA pixels.

use vstd::prelude::*;
use crate::auth::Account;
use crate::download::opt_view;
use crate::text;

verus! {

/// One pixel: red, green, blue, alpha.
pub type Rgba = (u8, u8, u8, u8);

/// An RGBA image of `width` by `height` pixels, row by row.
#[derive(Debug, Clone)]
pub struct SkinImage {
    pub width: u32,
    pub height: u32,
    pub rows: Vec<Vec<Rgba>>,
}

pub open spec fn transparent() -> Rgba {
    (0, 0, 0, 0)
}

impl SkinImage {
    /// The pixels, row by row.
    pub open spec fn pixels(self) -> Seq<Seq<Rgba>> {
        self.rows@.map_values(|r: Vec<Rgba>| r@)
    }

    /// The rows hold `height` rows of `width` pixels each.
    pub open spec fn wf(self) -> bool {
        &&& self.rows@.len() == self.height
        &&& forall|y: int| 0 <= y < self.height ==> #[trigger] self.rows@[y]@.len() == self.width
    }

    /// A fully transparent image.
    pub fn new(width: u32, height: u32) -> (r: Self)
        ensures
            r.wf(),
            r.width == width,
            r.height == height,
            r.pixels() == blank(width as int, height as int),
    {
        let mut rows: Vec<Vec<Rgba>> = Vec::new();
        let mut y: u32 = 0;
        while y < height
            invariant
                y <= height,
                rows@.len() == y,
                forall|t: int| 0 <= t < y ==> #[trigger] rows@[t]@ == Seq::new(width as nat, |x: int| transparent()),
            decreases height - y,
        {
            let mut row: Vec<Rgba> = Vec::new();
            let mut x: u32 = 0;
            while x < width
                invariant
                    x <= width,
                    row@ == Seq::new(x as nat, |i: int| transparent()),
                decreases width - x,
            {
                row.push((0, 0, 0, 0));
                x = x + 1;
                assert(row@ =~= Seq::new(x as nat, |i: int| transparent()));
            }
            rows.push(row);
            y = y + 1;
        }
        let r = SkinImage { width, height, rows };
        assert(r.pixels() =~~= blank(width as int, height as int));
        r
    }
}

/// A transparent picture of `w` by `h` pixels.
pub open spec fn blank(w: int, h: int) -> Seq<Seq<Rgba>> {
    Seq::new(h as nat, |y: int| Seq::new(w as nat, |x: int| transparent()))
}

/// The pixel of `src` at `(x, y)` is there and, when `opaque_only`, not
/// (nearly) transparent.
pub open spec fn shown(src: SkinImage, x: int, y: int, opaque_only: bool) -> bool {
    &&& 0 <= x < src.width
    &&& 0 <= y < src.height
    &&& (opaque_only ==> src.pixels()[y][x].3 > 10)
}

/// A copy rectangle: from `(sx, sy)` in the source, `w` by `h`, to
/// `(dx, dy)` in the target.
#[derive(Debug, Clone, Copy)]
pub struct Rect {
    pub sx: u32,
    pub sy: u32,
    pub w: u32,
    pub h: u32,
    pub dx: u32,
    pub dy: u32,
}

/// `dest` with the rectangle of `src` copied on top, over the first `cy`
/// rows of the rectangle and the first `cx` pixels of the next one.
pub open spec fn blit_part(
    dest: Seq<Seq<Rgba>>,
    src: SkinImage,
    r: Rect,
    opaque_only: bool,
    cy: int,
    cx: int,
) -> Seq<Seq<Rgba>> {
    Seq::new(
        dest.len(),
        |y: int|
            Seq::new(
                dest[y].len(),
                |x: int|
                    {
                        let ox = x - r.dx;
                        let oy = y - r.dy;
                        if 0 <= ox < r.w && 0 <= oy < r.h && (oy < cy || (oy == cy && ox < cx))
                            && shown(src, r.sx + ox, r.sy + oy, opaque_only) {
                            src.pixels()[r.sy + oy][r.sx + ox]
                        } else {
                            dest[y][x]
                        }
                    },
            ),
    )
}

/// `dest` with the rectangle of `src` copied on top: every source pixel
/// that is there (and opaque enough, when `opaque_only`) replaces the target
/// pixel.
pub open spec fn blit(dest: Seq<Seq<Rgba>>, src: SkinImage, r: Rect, opaque_only: bool) -> Seq<Seq<Rgba>> {
    blit_part(dest, src, r, opaque_only, r.h as int, 0)
}

/// Copies a rectangle of `src` onto `dest`.
fn blit_into(dest: &mut SkinImage, src: &SkinImage, r: Rect, opaque_only: bool)
    requires
        old(dest).wf(),
        src.wf(),
        r.dx + r.w <= old(dest).width,
        r.dy + r.h <= old(dest).height,
    ensures
        final(dest).wf(),
        final(dest).width == old(dest).width,
        final(dest).height == old(dest).height,
        final(dest).pixels() == blit(old(dest).pixels(), *src, r, opaque_only),
{
    let ghost d0 = dest.pixels();
    let ghost w0 = dest.width;
    let ghost h0 = dest.height;
    assert(blit_part(d0, *src, r, opaque_only, 0, 0) =~~= d0);
    let mut y: u32 = 0;
    while y < r.h
        invariant
            y <= r.h,
            dest.wf(),
            src.wf(),
            dest.width == w0,
            dest.height == h0,
            r.dx + r.w <= w0,
            r.dy + r.h <= h0,
            d0.len() == h0,
            forall|t: int| 0 <= t < h0 ==> #[trigger] d0[t].len() == w0,
            dest.pixels() == blit_part(d0, *src, r, opaque_only, y as int, 0),
        decreases r.h - y,
    {
        let mut x: u32 = 0;
        while x < r.w
            invariant
                x <= r.w,
                y < r.h,
                dest.wf(),
                src.wf(),
                dest.width == w0,
                dest.height == h0,
                r.dx + r.w <= w0,
                r.dy + r.h <= h0,
                d0.len() == h0,
                forall|t: int| 0 <= t < h0 ==> #[trigger] d0[t].len() == w0,
                dest.pixels() == blit_part(d0, *src, r, opaque_only, y as int, x as int),
            decreases r.w - x,
        {
            let ghost before = dest.pixels();
            if r.sx as u64 + (x as u64) < src.width as u64 && r.sy as u64 + (y as u64) < src.height as u64 {
                let px = r.sx + x;
                let py = r.sy + y;
                let p = src.rows[py as usize][px as usize];
                if !opaque_only || p.3 > 10 {
                    let ty = (r.dy + y) as usize;
                    let tx = (r.dx + x) as usize;
                    dest.rows[ty][tx] = p;
                }
            }
            proof {
                let next = blit_part(d0, *src, r, opaque_only, y as int, x + 1);
                assert forall|yy: int| 0 <= yy < h0 implies #[trigger] dest.pixels()[yy] =~= next[yy] by {
                    assert forall|xx: int| 0 <= xx < w0 implies dest.pixels()[yy][xx] == next[yy][xx] by {
                        if yy != r.dy + y || xx != r.dx + x {
                            assert(dest.pixels()[yy][xx] == before[yy][xx]);
                        }
                    }
                }
                assert(dest.pixels() =~= next);
            }
            x = x + 1;
        }
        y = y + 1;
        assert(blit_part(d0, *src, r, opaque_only, y - 1, r.w as int) =~~= blit_part(
            d0,
            *src,
            r,
            opaque_only,
            y as int,
            0,
        ));
    }
}

pub open spec fn rect(sx: u32, sy: u32, w: u32, h: u32, dx: u32, dy: u32) -> Rect {
    Rect { sx, sy, w, h, dx, dy }
}

fn mk_rect(sx: u32, sy: u32, w: u32, h: u32, dx: u32, dy: u32) -> (r: Rect)
    ensures
        r == rect(sx, sy, w, h, dx, dy),
{
    Rect { sx, sy, w, h, dx, dy }
}

/// The width of an arm: 3 pixels for the slim (Alex) model, 4 for the
/// classic (Steve) one.
pub open spec fn arm_width(slim: bool) -> u32 {
    if slim {
        3
    } else {
        4
    }
}

/// The front view of a skin, 16 by 32 pixels: head and hat, torso and
/// jacket, right arm and sleeve, left arm, right leg and trouser, left leg.
/// A skin shorter than 64 rows has no outer layers below the head and
/// mirrors the right limbs on the left.
pub open spec fn front_view(skin: SkinImage, slim: bool) -> Seq<Seq<Rgba>> {
    let aw = arm_width(slim);
    let tall = skin.height >= 64;
    let head = blit(blank(16, 32), skin, rect(8, 8, 8, 8, 4, 0), true);
    let hat = blit(head, skin, rect(40, 8, 8, 8, 4, 0), true);
    let torso = blit(hat, skin, rect(20, 20, 8, 12, 4, 8), true);
    let jacket = if tall {
        blit(torso, skin, rect(20, 36, 8, 12, 4, 8), true)
    } else {
        torso
    };
    let right_arm = blit(jacket, skin, rect(44, 20, aw, 12, (4 - aw) as u32, 8), true);
    let right_sleeve = if tall {
        blit(right_arm, skin, rect(44, 36, aw, 12, (4 - aw) as u32, 8), true)
    } else {
        right_arm
    };
    let left_arm = if tall {
        blit(
            blit(right_sleeve, skin, rect(36, 52, aw, 12, 12, 8), true),
            skin,
            rect(52, 52, aw, 12, 12, 8),
            true,
        )
    } else {
        blit(right_sleeve, skin, rect(44, 20, aw, 12, 12, 8), true)
    };
    let right_leg = blit(left_arm, skin, rect(4, 20, 4, 12, 4, 20), true);
    let right_trouser = if tall {
        blit(right_leg, skin, rect(4, 36, 4, 12, 4, 20), true)
    } else {
        right_leg
    };
    if tall {
        blit(
            blit(right_trouser, skin, rect(20, 52, 4, 12, 8, 20), true),
            skin,
            rect(4, 52, 4, 12, 8, 20),
            true,
        )
    } else {
        blit(right_trouser, skin, rect(4, 20, 4, 12, 8, 20), true)
    }
}

/// The front view of a skin.
pub fn composite_front_skin(skin: &SkinImage, is_slim: bool) -> (r: SkinImage)
    requires
        skin.wf(),
    ensures
        r.wf(),
        r.width == 16,
        r.height == 32,
        r.pixels() == front_view(*skin, is_slim),
{
    let aw: u32 = if is_slim {
        3
    } else {
        4
    };
    let tall = skin.height >= 64;
    let mut out = SkinImage::new(16, 32);
    blit_into(&mut out, skin, mk_rect(8, 8, 8, 8, 4, 0), true);
    blit_into(&mut out, skin, mk_rect(40, 8, 8, 8, 4, 0), true);
    blit_into(&mut out, skin, mk_rect(20, 20, 8, 12, 4, 8), true);
    if tall {
        blit_into(&mut out, skin, mk_rect(20, 36, 8, 12, 4, 8), true);
    }
    blit_into(&mut out, skin, mk_rect(44, 20, aw, 12, 4 - aw, 8), true);
    if tall {
        blit_into(&mut out, skin, mk_rect(44, 36, aw, 12, 4 - aw, 8), true);
    }
    if tall {
        blit_into(&mut out, skin, mk_rect(36, 52, aw, 12, 12, 8), true);
        blit_into(&mut out, skin, mk_rect(52, 52, aw, 12, 12, 8), true);
    } else {
        blit_into(&mut out, skin, mk_rect(44, 20, aw, 12, 12, 8), true);
    }
    blit_into(&mut out, skin, mk_rect(4, 20, 4, 12, 4, 20), true);
    if tall {
        blit_into(&mut out, skin, mk_rect(4, 36, 4, 12, 4, 20), true);
    }
    if tall {
        blit_into(&mut out, skin, mk_rect(20, 52, 4, 12, 8, 20), true);
        blit_into(&mut out, skin, mk_rect(4, 52, 4, 12, 8, 20), true);
    } else {
        blit_into(&mut out, skin, mk_rect(4, 20, 4, 12, 8, 20), true);
    }
    out
}

pub open spec fn steve_or_alex(slim: bool, steve: Rgba, alex: Rgba) -> Rgba {
    if slim {
        alex
    } else {
        steve
    }
}

pub open spec fn skin_tone(slim: bool) -> Rgba {
    steve_or_alex(slim, (219, 172, 142, 255), (235, 185, 150, 255))
}

pub open spec fn hair_tone(slim: bool) -> Rgba {
    steve_or_alex(slim, (74, 45, 23, 255), (190, 100, 40, 255))
}

pub open spec fn eye_tone(slim: bool) -> Rgba {
    steve_or_alex(slim, (45, 45, 180, 255), (40, 140, 70, 255))
}

pub open spec fn shirt_tone(slim: bool) -> Rgba {
    steve_or_alex(slim, (0, 160, 175, 255), (90, 125, 80, 255))
}

pub open spec fn pants_tone(slim: bool) -> Rgba {
    steve_or_alex(slim, (43, 59, 137, 255), (95, 75, 60, 255))
}

pub open spec fn white() -> Rgba {
    (255, 255, 255, 255)
}

pub open spec fn shoe_tone() -> Rgba {
    (60, 60, 60, 255)
}

/// The pixel at `(x, y)` of the default skin: Steve's, or Alex's for the
/// slim model.
pub open spec fn default_pixel(slim: bool, x: int, y: int) -> Rgba {
    let aw = arm_width(slim) as int;
    if y == 12 && (x == 9 || x == 14) {
        white()
    } else if y == 12 && (x == 10 || x == 13) {
        eye_tone(slim)
    } else if 8 <= x < 16 && 8 <= y < 10 {
        hair_tone(slim)
    } else if 8 <= x < 16 && 8 <= y < 16 {
        skin_tone(slim)
    } else if 20 <= x < 28 && 20 <= y < 32 {
        shirt_tone(slim)
    } else if 44 <= x < 44 + aw && 20 <= y < 32 {
        if y < 24 {
            shirt_tone(slim)
        } else {
            skin_tone(slim)
        }
    } else if 36 <= x < 36 + aw && 52 <= y < 64 {
        if y < 56 {
            shirt_tone(slim)
        } else {
            skin_tone(slim)
        }
    } else if 4 <= x < 8 && 20 <= y < 32 {
        if y < 30 {
            pants_tone(slim)
        } else {
            shoe_tone()
        }
    } else if 20 <= x < 24 && 52 <= y < 64 {
        if y < 62 {
            pants_tone(slim)
        } else {
            shoe_tone()
        }
    } else {
        transparent()
    }
}

/// The default skin, 64 by 64 pixels.
pub open spec fn default_skin(slim: bool) -> Seq<Seq<Rgba>> {
    Seq::new(64, |y: int| Seq::new(64, |x: int| default_pixel(slim, x, y)))
}

fn tone(slim: bool, steve: Rgba, alex: Rgba) -> (r: Rgba)
    ensures
        r == steve_or_alex(slim, steve, alex),
{
    if slim {
        alex
    } else {
        steve
    }
}

fn pixel_at(slim: bool, x: u32, y: u32) -> (r: Rgba)
    ensures
        r == default_pixel(slim, x as int, y as int),
{
    let aw: u32 = if slim {
        3
    } else {
        4
    };
    let skin = tone(slim, (219, 172, 142, 255), (235, 185, 150, 255));
    let hair = tone(slim, (74, 45, 23, 255), (190, 100, 40, 255));
    let eye = tone(slim, (45, 45, 180, 255), (40, 140, 70, 255));
    let shirt = tone(slim, (0, 160, 175, 255), (90, 125, 80, 255));
    let pants = tone(slim, (43, 59, 137, 255), (95, 75, 60, 255));
    if y == 12 && (x == 9 || x == 14) {
        (255, 255, 255, 255)
    } else if y == 12 && (x == 10 || x == 13) {
        eye
    } else if 8 <= x && x < 16 && 8 <= y && y < 10 {
        hair
    } else if 8 <= x && x < 16 && 8 <= y && y < 16 {
        skin
    } else if 20 <= x && x < 28 && 20 <= y && y < 32 {
        shirt
    } else if 44 <= x && x < 44 + aw && 20 <= y && y < 32 {
        if y < 24 {
            shirt
        } else {
            skin
        }
    } else if 36 <= x && x < 36 + aw && 52 <= y && y < 64 {
        if y < 56 {
            shirt
        } else {
            skin
        }
    } else if 4 <= x && x < 8 && 20 <= y && y < 32 {
        if y < 30 {
            pants
        } else {
            (60, 60, 60, 255)
        }
    } else if 20 <= x && x < 24 && 52 <= y && y < 64 {
        if y < 62 {
            pants
        } else {
            (60, 60, 60, 255)
        }
    } else {
        (0, 0, 0, 0)
    }
}

/// The default skin: Steve's, or Alex's for the slim model.
pub fn generate_default_skin(is_slim: bool) -> (r: SkinImage)
    ensures
        r.wf(),
        r.width == 64,
        r.height == 64,
        r.pixels() == default_skin(is_slim),
{
    let mut rows: Vec<Vec<Rgba>> = Vec::new();
    let mut y: u32 = 0;
    while y < 64
        invariant
            y <= 64,
            rows@.len() == y,
            forall|t: int|
                0 <= t < y ==> #[trigger] rows@[t]@ == Seq::new(
                    64,
                    |x: int| default_pixel(is_slim, x, t),
                ),
        decreases 64 - y,
    {
        let mut row: Vec<Rgba> = Vec::new();
        let mut x: u32 = 0;
        while x < 64
            invariant
                x <= 64,
                row@ == Seq::new(x as nat, |i: int| default_pixel(is_slim, i, y as int)),
            decreases 64 - x,
        {
            row.push(pixel_at(is_slim, x, y));
            x = x + 1;
            assert(row@ =~= Seq::new(x as nat, |i: int| default_pixel(is_slim, i, y as int)));
        }
        rows.push(row);
        y = y + 1;
    }
    let r = SkinImage { width: 64, height: 64, rows };
    assert(r.pixels() =~~= default_skin(is_slim));
    r
}

/// The head avatar, 8 by 8 pixels: the face, with the opaque pixels of the
/// hat on top.
pub open spec fn head_avatar(skin: SkinImage) -> Seq<Seq<Rgba>> {
    blit(blit(blank(8, 8), skin, rect(8, 8, 8, 8, 0, 0), false), skin, rect(40, 8, 8, 8, 0, 0), true)
}

/// The head avatar of a skin, or of the default skin when there is none.
pub fn extract_head_avatar(skin: Option<&SkinImage>, is_slim: bool) -> (r: SkinImage)
    requires
        skin matches Some(s) ==> s.wf(),
    ensures
        r.wf(),
        r.width == 8,
        r.height == 8,
        match skin {
            Some(s) => r.pixels() == head_avatar(*s),
            None => exists|d: SkinImage|
                d.wf() && d.width == 64 && d.height == 64 && d.pixels() == default_skin(is_slim)
                    && r.pixels() == head_avatar(d),
        },
{
    let mut head = SkinImage::new(8, 8);
    match skin {
        Some(s) => {
            blit_into(&mut head, s, mk_rect(8, 8, 8, 8, 0, 0), false);
            blit_into(&mut head, s, mk_rect(40, 8, 8, 8, 0, 0), true);
        },
        None => {
            let d = generate_default_skin(is_slim);
            blit_into(&mut head, &d, mk_rect(8, 8, 8, 8, 0, 0), false);
            blit_into(&mut head, &d, mk_rect(40, 8, 8, 8, 0, 0), true);
        },
    }
    head
}

/// The state of the skins page: the model, the loaded skin and whether the
/// preview and the avatar must be drawn again.
#[derive(Debug, Clone)]
pub struct SkinsPage {
    pub is_slim_model: bool,
    pub active_skin_name: String,
    pub custom_skin_path: Option<String>,
    pub skin_image: Option<SkinImage>,
    pub dirty: bool,
    pub avatar_dirty: bool,
}

/// The name shown for the default skin of a model.
pub open spec fn default_skin_name(slim: bool) -> Seq<char> {
    if slim {
        "Alex (По умолчанию)"@
    } else {
        "Steve (По умолчанию)"@
    }
}

impl Default for SkinsPage {
    fn default() -> (r: Self)
        ensures
            !r.is_slim_model,
            r.active_skin_name@ == default_skin_name(false),
            r.custom_skin_path is None,
            r.skin_image is None,
            r.dirty,
            r.avatar_dirty,
    {
        SkinsPage {
            is_slim_model: false,
            active_skin_name: text::owned("Steve (По умолчанию)"),
            custom_skin_path: None,
            skin_image: None,
            dirty: true,
            avatar_dirty: true,
        }
    }
}

impl SkinsPage {
    /// Chooses the classic or the slim model; a change marks the preview and
    /// the avatar for drawing.
    pub fn select_model(&mut self, slim: bool)
        ensures
            final(self).is_slim_model == slim,
            old(self).is_slim_model != slim ==> final(self).dirty && final(self).avatar_dirty,
            old(self).is_slim_model == slim ==> final(self).dirty == old(self).dirty
                && final(self).avatar_dirty == old(self).avatar_dirty,
            final(self).active_skin_name == old(self).active_skin_name,
            final(self).skin_image == old(self).skin_image,
    {
        if self.is_slim_model != slim {
            self.is_slim_model = slim;
            self.dirty = true;
            self.avatar_dirty = true;
        }
    }

    /// Takes a skin loaded from a file; its name is the file's name, or
    /// "Кастомный скин" when the path has none.
    pub fn skin_loaded(&mut self, path: &str, image: SkinImage)
        ensures
            final(self).skin_image == Some(image),
            opt_view(final(self).custom_skin_path) == Some(path@),
            final(self).active_skin_name@ == (if crate::paths::file_name(path@).len() == 0 {
                "Кастомный скин"@
            } else {
                crate::paths::file_name(path@)
            }),
            final(self).dirty && final(self).avatar_dirty,
            final(self).is_slim_model == old(self).is_slim_model,
    {
        let name = crate::paths::file_name_of(path);
        self.active_skin_name = if name.as_str().is_empty() {
            text::owned("Кастомный скин")
        } else {
            name
        };
        self.skin_image = Some(image);
        self.custom_skin_path = Some(text::owned(path));
        self.dirty = true;
        self.avatar_dirty = true;
    }

    /// Goes back to the default skin of the model.
    pub fn reset_skin(&mut self)
        ensures
            final(self).skin_image is None,
            final(self).custom_skin_path is None,
            final(self).active_skin_name@ == default_skin_name(old(self).is_slim_model),
            final(self).dirty && final(self).avatar_dirty,
            final(self).is_slim_model == old(self).is_slim_model,
    {
        self.skin_image = None;
        self.custom_skin_path = None;
        self.active_skin_name = if self.is_slim_model {
            text::owned("Alex (По умолчанию)")
        } else {
            text::owned("Steve (По умолчанию)")
        };
        self.dirty = true;
        self.avatar_dirty = true;
    }

    /// The front view shown: that of the loaded skin, else of the default
    /// skin of the model; the preview is then up to date.
    pub fn preview(&mut self) -> (r: SkinImage)
        requires
            old(self).skin_image matches Some(s) ==> s.wf(),
        ensures
            r.wf(),
            r.width == 16,
            r.height == 32,
            match old(self).skin_image {
                Some(s) => r.pixels() == front_view(s, old(self).is_slim_model),
                None => exists|d: SkinImage|
                    d.wf() && d.width == 64 && d.height == 64 && d.pixels() == default_skin(
                        old(self).is_slim_model,
                    ) && r.pixels() == front_view(d, old(self).is_slim_model),
            },
            !final(self).dirty,
            final(self).skin_image == old(self).skin_image,
            final(self).is_slim_model == old(self).is_slim_model,
    {
        let r = match &self.skin_image {
            Some(s) => composite_front_skin(s, self.is_slim_model),
            None => {
                let d = generate_default_skin(self.is_slim_model);
                composite_front_skin(&d, self.is_slim_model)
            },
        };
        self.dirty = false;
        r
    }
}

/// The account line of the skins page.
pub fn account_label(account: &Account) -> (r: String)
    ensures
        r@ == "Аккаунт: "@ + account.username@ + " ("@ + account.account_type.name() + ")"@,
{
    let mut s = text::concat2("Аккаунт: ", account.username.as_str());
    s.append(" (");
    s.append(account.account_type.as_str());
    s.append(")");
    s
}

} // verus!
