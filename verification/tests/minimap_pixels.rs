use hearthfield::minimap::{
    minimap_base_pixels, minimap_frame, tile_color, MinimapCrop, MinimapState, TileKind,
};
use hearthfield::world::MapId;

fn px(base: &[(u8, u8, u8, u8)], x: usize, y: usize) -> (u8, u8, u8, u8) {
    base[y * 64 + x]
}

fn small_map() -> Vec<TileKind> {
    // 4 x 3 map: grass everywhere but a water tile at (1, 1).
    let mut tiles = vec![TileKind::Grass; 12];
    tiles[1 * 4 + 1] = TileKind::Water;
    tiles
}

#[test]
fn tile_colours_match_the_palette() {
    assert_eq!(tile_color(TileKind::Grass), (72, 130, 60, 255));
    assert_eq!(tile_color(TileKind::Water), (55, 100, 180, 255));
    assert_eq!(tile_color(TileKind::Void), (20, 30, 20, 255));
    assert_eq!(tile_color(TileKind::Bridge), (130, 105, 65, 255));
}

#[test]
fn base_picture_draws_tiles_and_void_outside() {
    let base = minimap_base_pixels(&small_map(), 4, 3, &vec![], &vec![], false);
    assert_eq!(base.len(), 4096);
    assert_eq!(px(&base, 0, 0), (72, 130, 60, 255));
    assert_eq!(px(&base, 1, 1), (55, 100, 180, 255));
    assert_eq!(px(&base, 4, 0), (20, 30, 20, 255));
    assert_eq!(px(&base, 0, 3), (20, 30, 20, 255));
    assert_eq!(px(&base, 63, 63), (20, 30, 20, 255));
}

#[test]
fn transitions_highlight_only_tiles_on_the_map() {
    // A rectangle hanging off the left edge and one starting past the map.
    let transitions = vec![(-1, 0, 3, 1), (10, 0, 2, 2)];
    let base = minimap_base_pixels(&small_map(), 4, 3, &transitions, &vec![], false);
    assert_eq!(px(&base, 0, 0), (255, 220, 100, 255));
    assert_eq!(px(&base, 1, 0), (255, 220, 100, 255));
    assert_eq!(px(&base, 2, 0), (72, 130, 60, 255));
    assert_eq!(px(&base, 0, 1), (72, 130, 60, 255));
}

#[test]
fn crops_show_only_on_the_farm() {
    let crops = vec![
        MinimapCrop { x: 2, y: 2, dead: false, stage: 2 },
        MinimapCrop { x: 3, y: 2, dead: true, stage: 4 },
        MinimapCrop { x: 0, y: 2, dead: false, stage: 9 },
        MinimapCrop { x: -1, y: 0, dead: false, stage: 1 },
    ];
    let farm = minimap_base_pixels(&small_map(), 4, 3, &vec![(0, 2, 4, 1)], &crops, true);
    assert_eq!(px(&farm, 2, 2), (30, 160, 20, 255));
    assert_eq!(px(&farm, 3, 2), (90, 60, 40, 255));
    assert_eq!(px(&farm, 0, 2), (30, 255, 20, 255));
    assert_eq!(px(&farm, 1, 2), (255, 220, 100, 255));
    let town = minimap_base_pixels(&small_map(), 4, 3, &vec![], &crops, false);
    assert_eq!(px(&town, 2, 2), (72, 130, 60, 255));
}

#[test]
fn large_maps_are_cut_to_sixty_four() {
    let tiles = vec![TileKind::Sand; 70 * 2];
    let base = minimap_base_pixels(&tiles, 70, 2, &vec![], &vec![], false);
    assert_eq!(px(&base, 63, 1), (210, 195, 150, 255));
    assert_eq!(px(&base, 63, 2), (20, 30, 20, 255));
}

#[test]
fn refresh_redraws_only_on_a_new_map() {
    let mut state = MinimapState::new();
    assert_eq!(state.cached_map, None);
    state.refresh(MapId::Town, &small_map(), 4, 3, &vec![], &vec![]);
    assert_eq!(state.cached_map, Some(MapId::Town));
    assert_eq!((state.map_width, state.map_height), (4, 3));
    assert_eq!(state.base_pixels[1 * 64 + 1], (55, 100, 180, 255));
    // Same map: the picture stays even when other tiles are handed in.
    state.refresh(MapId::Town, &vec![TileKind::Stone; 4], 2, 2, &vec![], &vec![]);
    assert_eq!((state.map_width, state.map_height), (4, 3));
    assert_eq!(state.base_pixels[1 * 64 + 1], (55, 100, 180, 255));
    state.refresh(MapId::Beach, &vec![TileKind::Stone; 4], 2, 2, &vec![], &vec![]);
    assert_eq!(state.cached_map, Some(MapId::Beach));
    assert_eq!(state.base_pixels[1 * 64 + 1], (140, 140, 145, 255));
    assert_eq!(state.base_pixels[2 * 64 + 2], (20, 30, 20, 255));
}

#[test]
fn frame_draws_player_dot_over_villagers() {
    let base = minimap_base_pixels(&vec![TileKind::Grass; 100], 10, 10, &vec![], &vec![], false);
    let frame = minimap_frame(&base, 10, 10, &vec![(5, 5), (1, 1), (20, 1)], Some((0, 0)), true);
    assert_eq!(frame.len(), 16384);
    let at = |x: usize, y: usize| {
        let o = (y * 64 + x) * 4;
        (frame[o], frame[o + 1], frame[o + 2], frame[o + 3])
    };
    assert_eq!(at(5, 5), (100, 200, 255, 255));
    assert_eq!(at(0, 0), (255, 255, 255, 255));
    assert_eq!(at(1, 1), (255, 255, 255, 255));
    assert_eq!(at(2, 2), (72, 130, 60, 255));
    assert_eq!(at(20, 1), (20, 30, 20, 255));
    let dim = minimap_frame(&base, 10, 10, &vec![], Some((9, 9)), false);
    let o = (9 * 64 + 9) * 4;
    assert_eq!((dim[o], dim[o + 1], dim[o + 2], dim[o + 3]), (255, 200, 50, 255));
    let o = (10 * 64 + 10) * 4;
    assert_eq!((dim[o], dim[o + 1], dim[o + 2], dim[o + 3]), (20, 30, 20, 255));
    let off_map = minimap_frame(&base, 10, 10, &vec![], Some((-1, 0)), true);
    assert_eq!((off_map[0], off_map[1], off_map[2], off_map[3]), (72, 130, 60, 255));
}
