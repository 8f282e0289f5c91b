use infinite_runner::atlas::{AtlasSize, JsonRect, Meta, SpriteData};
use infinite_runner::collision::BoundingBox;
use infinite_runner::{Atlas, Player, Sprite, Vector2};

fn frame(name: &str, x: i32, y: i32, w: i32, h: i32) -> SpriteData {
    SpriteData { filename: String::from(name), frame: JsonRect { x, y, w, h } }
}

fn sheet() -> Atlas {
    Atlas::new(
        vec![
            frame("Idle.png", 0, 0, 64, 64),
            frame("RunRight01.png", 64, 0, 128, 128),
            frame("RunRight02.png", 192, 0, 128, 128),
            frame("RunRight03.png", 0, 128, 128, 128),
            frame("RunRight04.png", 128, 128, 120, 100),
            frame("RunRight02.png", 300, 300, 1, 1),
        ],
        Meta { size: AtlasSize { w: 512, h: 256 } },
    )
}

#[test]
fn atlas_reports_the_size_of_its_sheet() {
    assert_eq!(sheet().size(), AtlasSize { w: 512, h: 256 });
}

#[test]
fn atlas_keeps_its_frames_in_order() {
    let atlas = sheet();
    let frames = atlas.frames();
    assert_eq!(frames.len(), 6);
    assert_eq!(frames[0].filename, "Idle.png");
    assert_eq!(frames[0].frame, JsonRect { x: 0, y: 0, w: 64, h: 64 });
    assert_eq!(frames[5].filename, "RunRight02.png");
    assert_eq!(frames[5].frame, JsonRect { x: 300, y: 300, w: 1, h: 1 });
}

#[test]
fn create_sprite_cuts_the_named_frame() {
    let sprite = sheet().create_sprite("RunRight04.png");
    assert_eq!(sprite.rect, JsonRect { x: 128, y: 128, w: 120, h: 100 });
    assert_eq!(sprite.sheet, AtlasSize { w: 512, h: 256 });
    assert_eq!(sprite.scale, Vector2 { x: 1, y: 1 });
    assert_eq!(sprite.width, 120);
    assert_eq!(sprite.height, 100);
}

#[test]
fn create_sprite_takes_the_first_frame_of_a_name() {
    let sprite = sheet().create_sprite("RunRight02.png");
    assert_eq!(sprite.rect, JsonRect { x: 192, y: 0, w: 128, h: 128 });
}

#[test]
fn find_sprite_tells_whether_the_frame_exists() {
    let atlas = sheet();
    assert_eq!(atlas.find_sprite("Missing.png"), None);
    assert_eq!(atlas.find_sprite(""), None);
    assert_eq!(atlas.find_sprite("idle.png"), None);
    assert_eq!(atlas.find_sprite("Idle.png"), Some(atlas.create_sprite("Idle.png")));
    let empty = Atlas::new(Vec::new(), Meta { size: AtlasSize { w: 1, h: 1 } });
    assert_eq!(empty.find_sprite("Idle.png"), None);
}

#[test]
fn sprite_new_is_unscaled() {
    let sprite = Sprite::new(
        JsonRect { x: 1, y: 2, w: 3, h: 4 },
        AtlasSize { w: 10, h: 20 },
        30,
        40,
    );
    assert_eq!(sprite.rect, JsonRect { x: 1, y: 2, w: 3, h: 4 });
    assert_eq!(sprite.sheet, AtlasSize { w: 10, h: 20 });
    assert_eq!(sprite.scale, Vector2 { x: 1, y: 1 });
    assert_eq!((sprite.width, sprite.height), (30, 40));
}

#[test]
fn sprite_bound_box_is_its_scaled_size_at_the_origin() {
    let mut sprite = sheet().create_sprite("RunRight04.png");
    assert_eq!(sprite.get_bound_box(), BoundingBox { x: 0, y: 0, width: 120, height: 100 });
    sprite.scale = Vector2 { x: 2, y: 3 };
    assert_eq!(sprite.get_bound_box(), BoundingBox { x: 0, y: 0, width: 240, height: 300 });
    sprite.scale = Vector2 { x: i64::MAX, y: -1 };
    assert_eq!(
        sprite.get_bound_box(),
        BoundingBox { x: 0, y: 0, width: i64::MAX, height: -100 }
    );
}

#[test]
fn player_sprites_are_the_four_running_frames_in_order() {
    let sprites = Player::new().create_sprites(&sheet());
    assert_eq!(sprites.len(), 4);
    assert_eq!(sprites[0].rect, JsonRect { x: 64, y: 0, w: 128, h: 128 });
    assert_eq!(sprites[1].rect, JsonRect { x: 192, y: 0, w: 128, h: 128 });
    assert_eq!(sprites[2].rect, JsonRect { x: 0, y: 128, w: 128, h: 128 });
    assert_eq!(sprites[3].rect, JsonRect { x: 128, y: 128, w: 120, h: 100 });
    assert_eq!((sprites[3].width, sprites[3].height), (120, 100));
}
