use texture_atlas_layout::geometry::{Rect, Vec2};
use texture_atlas_layout::layout::TextureAtlasLayout;
use texture_atlas_layout::texture_index::{TextureId, TextureIndexMap};

fn rect(x0: i64, y0: i64, x1: i64, y1: i64) -> Rect {
    Rect { min: Vec2::new(x0, y0), max: Vec2::new(x1, y1) }
}

#[test]
fn grid_two_by_two_without_padding() {
    let layout = TextureAtlasLayout::from_grid(Vec2::new(16, 16), 2, 2, None, None);
    assert_eq!(
        layout.textures,
        vec![
            rect(0, 0, 16, 16),
            rect(16, 0, 32, 16),
            rect(0, 16, 16, 32),
            rect(16, 16, 32, 32),
        ]
    );
    assert_eq!(layout.size, Vec2::new(32, 32));
    assert!(layout.texture_handles.is_none());
}

#[test]
fn grid_with_horizontal_padding() {
    let layout =
        TextureAtlasLayout::from_grid(Vec2::new(10, 10), 2, 1, Some(Vec2::new(2, 0)), None);
    assert_eq!(layout.textures, vec![rect(0, 0, 10, 10), rect(12, 0, 22, 10)]);
    assert_eq!(layout.size, Vec2::new(22, 10));
}

#[test]
fn empty_layout_then_two_sections() {
    let mut layout = TextureAtlasLayout::new_empty(Vec2::new(100, 100));
    assert_eq!(layout.add_texture(rect(0, 0, 10, 10)), 0);
    assert_eq!(layout.add_texture(rect(-5, 3, 200, 7)), 1);
    assert_eq!(layout.len(), 2);
    assert_eq!(layout.size, Vec2::new(100, 100));
}

#[test]
fn new_empty_keeps_dimensions() {
    let layout = TextureAtlasLayout::new_empty(Vec2::new(-3, 0));
    assert_eq!(layout.size, Vec2::new(-3, 0));
    assert!(layout.textures.is_empty());
    assert!(layout.texture_handles.is_none());
}

#[test]
fn grid_section_count_is_columns_times_rows() {
    let layout = TextureAtlasLayout::from_grid(Vec2::new(3, 5), 4, 3, None, None);
    assert_eq!(layout.len(), 12);
    let no_rows = TextureAtlasLayout::from_grid(Vec2::new(3, 5), 4, 0, None, None);
    assert_eq!(no_rows.len(), 0);
    let no_columns = TextureAtlasLayout::from_grid(Vec2::new(3, 5), 0, 4, None, None);
    assert_eq!(no_columns.len(), 0);
}

#[test]
fn grid_is_row_major_with_padding_and_offset() {
    let layout = TextureAtlasLayout::from_grid(
        Vec2::new(8, 4),
        3,
        2,
        Some(Vec2::new(1, 2)),
        Some(Vec2::new(5, 7)),
    );
    assert_eq!(layout.len(), 6);
    assert_eq!(layout.textures[0], rect(5, 7, 13, 11));
    assert_eq!(layout.textures[1], rect(14, 7, 22, 11));
    assert_eq!(layout.textures[3], rect(5, 13, 13, 17));
    assert_eq!(layout.textures[5], rect(23, 13, 31, 17));
    assert_eq!(layout.size, Vec2::new(26, 10));
}

#[test]
fn unpadded_grid_size_is_tiles_times_counts() {
    let layout = TextureAtlasLayout::from_grid(Vec2::new(7, 9), 5, 3, Some(Vec2::new(0, 0)), None);
    assert_eq!(layout.size, Vec2::new(35, 27));
    let single = TextureAtlasLayout::from_grid(Vec2::new(7, 9), 1, 1, None, None);
    assert_eq!(single.size, Vec2::new(7, 9));
}

#[test]
fn grid_without_columns_keeps_vertical_padding() {
    let layout =
        TextureAtlasLayout::from_grid(Vec2::new(10, 10), 0, 3, Some(Vec2::new(2, 2)), None);
    assert!(layout.is_empty());
    assert_eq!(layout.size, Vec2::new(0, 34));
}

#[test]
fn grid_without_rows_has_zero_height() {
    let layout =
        TextureAtlasLayout::from_grid(Vec2::new(10, 10), 3, 0, Some(Vec2::new(2, 2)), None);
    assert!(layout.is_empty());
    assert_eq!(layout.size, Vec2::new(30, 0));
}

#[test]
fn add_texture_returns_previous_length() {
    let mut layout = TextureAtlasLayout::from_grid(Vec2::new(4, 4), 2, 2, None, None);
    let r = rect(1, 2, 3, 4);
    assert_eq!(layout.add_texture(r), 4);
    assert_eq!(layout.len(), 5);
    assert_eq!(layout.textures[4], r);
}

#[test]
fn is_empty_follows_len() {
    let mut layout = TextureAtlasLayout::new_empty(Vec2::new(1, 1));
    assert!(layout.is_empty());
    assert_eq!(layout.len(), 0);
    layout.add_texture(rect(0, 0, 1, 1));
    assert!(!layout.is_empty());
    assert_eq!(layout.len(), 1);
}

#[test]
fn texture_index_without_lookup_is_none() {
    let layout = TextureAtlasLayout::from_grid(Vec2::new(4, 4), 2, 2, None, None);
    assert_eq!(layout.get_texture_index(&TextureId::new(0, 0)), None);
}

#[test]
fn texture_index_with_lookup() {
    let mut layout = TextureAtlasLayout::new_empty(Vec2::new(64, 64));
    let first = TextureId::new(3, 1);
    let second = TextureId::new(7, 0);
    let mut handles = TextureIndexMap::new();
    handles.insert(first, layout.add_texture(rect(0, 0, 32, 32)));
    handles.insert(second, layout.add_texture(rect(32, 0, 64, 32)));
    layout.texture_handles = Some(handles);
    assert_eq!(layout.get_texture_index(&first), Some(0));
    assert_eq!(layout.get_texture_index(&second), Some(1));
    assert_eq!(layout.get_texture_index(&TextureId::new(3, 2)), None);
    assert_eq!(layout.get_texture_index(&TextureId::new(4, 1)), None);
}

#[test]
fn index_map_insert_replaces_and_get_reads() {
    let mut map = TextureIndexMap::new();
    let id = TextureId::new(9, 4);
    assert_eq!(map.get(&id), None);
    map.insert(id, 5);
    assert_eq!(map.get(&id), Some(5));
    map.insert(id, 2);
    assert_eq!(map.get(&id), Some(2));
    assert_eq!(map.get(&TextureId::new(4, 9)), None);
}

#[test]
fn grid_in_range_accepts_ordinary_grids() {
    assert!(TextureAtlasLayout::grid_in_range(Vec2::new(16, 16), 8, 8, None, None));
    assert!(TextureAtlasLayout::grid_in_range(
        Vec2::new(16, 16),
        0,
        0,
        Some(Vec2::new(1, 1)),
        Some(Vec2::new(-4, 4))
    ));
}

#[test]
fn grid_in_range_rejects_overflowing_grids() {
    assert!(!TextureAtlasLayout::grid_in_range(Vec2::new(i64::MAX, 1), 2, 1, None, None));
    assert!(!TextureAtlasLayout::grid_in_range(
        Vec2::new(1, 1),
        1,
        1,
        None,
        Some(Vec2::new(0, i64::MAX))
    ));
    assert!(!TextureAtlasLayout::grid_in_range(
        Vec2::new(1 << 40, 1),
        1 << 30,
        1,
        None,
        None
    ));
    assert!(!TextureAtlasLayout::grid_in_range(
        Vec2::new(1, 1),
        3,
        usize::MAX,
        Some(Vec2::new(0, i64::MAX)),
        None
    ));
}

#[test]
fn grid_in_range_checks_padding_between_cells() {
    // One column: the horizontal padding is never applied.
    assert!(TextureAtlasLayout::grid_in_range(
        Vec2::new(4, 4),
        1,
        1,
        Some(Vec2::new(i64::MAX, i64::MAX)),
        None
    ));
    assert!(!TextureAtlasLayout::grid_in_range(
        Vec2::new(4, 4),
        2,
        1,
        Some(Vec2::new(i64::MAX, 0)),
        None
    ));
}
