use vstd::prelude::*;
use crate::calendar::Season;
use crate::text::{str_eq, string_of};
use crate::world::MapId;

verus! {

/// The sound file played for a sound-effect id.
pub open spec fn sfx_file(id: Seq<char>) -> Option<&'static str> {
    if id == "sfx_hoe"@ || id == "sfx_axe"@ || id == "sfx_pickaxe"@ || id == "sfx_scythe"@ {
        Some("audio/sfx/sfx_sounds_impact1.ogg")
    } else if id == "sfx_water"@ {
        Some("audio/sfx/sfx_sounds_interaction5.ogg")
    } else if id == "sfx_cast"@ {
        Some("audio/sfx/sfx_movement_jump1.ogg")
    } else if id == "chop"@ {
        Some("audio/sfx/sfx_sounds_impact2.ogg")
    } else if id == "rock_hit"@ {
        Some("audio/sfx/sfx_sounds_impact3.ogg")
    } else if id == "swish"@ {
        Some("audio/sfx/sfx_wpn_sword1.ogg")
    } else if id == "hit"@ {
        Some("audio/sfx/sfx_damage_hit1.ogg")
    } else if id == "object_break"@ {
        Some("audio/sfx/sfx_sounds_impact5.ogg")
    } else if id == "pickup"@ {
        Some("audio/sfx/sfx_coin_single1.ogg")
    } else if id == "menu_move"@ {
        Some("audio/sfx/sfx_menu_move1.ogg")
    } else if id == "menu_select"@ {
        Some("audio/sfx/sfx_menu_select1.ogg")
    } else if id == "purchase"@ {
        Some("audio/sfx/sfx_coin_cluster1.ogg")
    } else if id == "sell"@ {
        Some("audio/sfx/sfx_coin_double1.ogg")
    } else if id == "door"@ {
        Some("audio/sfx/sfx_movement_dooropen1.ogg")
    } else if id == "footstep"@ {
        Some("audio/sfx/sfx_movement_footsteps1a.ogg")
    } else if id == "error"@ {
        Some("audio/sfx/sfx_sounds_error1.ogg")
    } else if id == "fanfare"@ {
        Some("audio/sfx/sfx_sounds_fanfare1.ogg")
    } else if id == "powerup"@ {
        Some("audio/sfx/sfx_sounds_powerup1.ogg")
    } else if id == "damage"@ {
        Some("audio/sfx/sfx_sounds_damage1.ogg")
    } else if id == "axe_chop"@ {
        Some("audio/sfx/sfx_sounds_impact2.ogg")
    } else if id == "pickaxe_hit"@ {
        Some("audio/sfx/sfx_sounds_impact3.ogg")
    } else if id == "hoe_till"@ {
        Some("audio/sfx/sfx_sounds_impact1.ogg")
    } else if id == "water_splash"@ {
        Some("audio/sfx/sfx_sounds_interaction5.ogg")
    } else if id == "fishing_cast"@ {
        Some("audio/sfx/sfx_movement_jump1.ogg")
    } else if id == "tool_generic"@ {
        Some("audio/sfx/sfx_wpn_sword1.ogg")
    } else if id == "craft_success"@ {
        Some("audio/sfx/sfx_sounds_fanfare1.ogg")
    } else if id == "craft_fail"@ {
        Some("audio/sfx/sfx_sounds_error1.ogg")
    } else if id == "ui_deny"@ {
        Some("audio/sfx/sfx_sounds_error1.ogg")
    } else if id == "ui_notification"@ {
        Some("audio/sfx/sfx_menu_select1.ogg")
    } else if id == "blacksmith_forge"@ {
        Some("audio/sfx/sfx_sounds_impact3.ogg")
    } else if id == "upgrade_complete"@ {
        Some("audio/sfx/sfx_sounds_powerup1.ogg")
    } else if id == "item_pickup"@ {
        Some("audio/sfx/sfx_coin_single1.ogg")
    } else if id == "shop_buy"@ {
        Some("audio/sfx/sfx_coin_cluster1.ogg")
    } else if id == "shop_sell"@ {
        Some("audio/sfx/sfx_coin_double1.ogg")
    } else if id == "shipping_bin"@ {
        Some("audio/sfx/sfx_coin_double1.ogg")
    } else if id == "eat"@ {
        Some("audio/sfx/sfx_coin_single1.ogg")
    } else if id == "harvest"@ {
        Some("audio/sfx/sfx_coin_single1.ogg")
    } else if id == "plant"@ {
        Some("audio/sfx/sfx_sounds_interaction5.ogg")
    } else if id == "fish_escape"@ {
        Some("audio/sfx/sfx_sounds_error1.ogg")
    } else if id == "thunder"@ {
        Some("audio/sfx/sfx_sounds_damage1.ogg")
    } else if id == "treasure_found"@ {
        Some("audio/sfx/sfx_sounds_fanfare1.ogg")
    } else if id == "rocks_broken"@ {
        Some("audio/sfx/sfx_sounds_impact5.ogg")
    } else {
        None
    }
}

pub fn sfx_path(sfx_id: &str) -> (r: Option<&'static str>)
    ensures
        r == sfx_file(sfx_id@),
{
    if str_eq(sfx_id, "sfx_hoe") || str_eq(sfx_id, "sfx_axe") || str_eq(sfx_id, "sfx_pickaxe") || str_eq(sfx_id, "sfx_scythe") {
        Some("audio/sfx/sfx_sounds_impact1.ogg")
    } else if str_eq(sfx_id, "sfx_water") {
        Some("audio/sfx/sfx_sounds_interaction5.ogg")
    } else if str_eq(sfx_id, "sfx_cast") {
        Some("audio/sfx/sfx_movement_jump1.ogg")
    } else if str_eq(sfx_id, "chop") {
        Some("audio/sfx/sfx_sounds_impact2.ogg")
    } else if str_eq(sfx_id, "rock_hit") {
        Some("audio/sfx/sfx_sounds_impact3.ogg")
    } else if str_eq(sfx_id, "swish") {
        Some("audio/sfx/sfx_wpn_sword1.ogg")
    } else if str_eq(sfx_id, "hit") {
        Some("audio/sfx/sfx_damage_hit1.ogg")
    } else if str_eq(sfx_id, "object_break") {
        Some("audio/sfx/sfx_sounds_impact5.ogg")
    } else if str_eq(sfx_id, "pickup") {
        Some("audio/sfx/sfx_coin_single1.ogg")
    } else if str_eq(sfx_id, "menu_move") {
        Some("audio/sfx/sfx_menu_move1.ogg")
    } else if str_eq(sfx_id, "menu_select") {
        Some("audio/sfx/sfx_menu_select1.ogg")
    } else if str_eq(sfx_id, "purchase") {
        Some("audio/sfx/sfx_coin_cluster1.ogg")
    } else if str_eq(sfx_id, "sell") {
        Some("audio/sfx/sfx_coin_double1.ogg")
    } else if str_eq(sfx_id, "door") {
        Some("audio/sfx/sfx_movement_dooropen1.ogg")
    } else if str_eq(sfx_id, "footstep") {
        Some("audio/sfx/sfx_movement_footsteps1a.ogg")
    } else if str_eq(sfx_id, "error") {
        Some("audio/sfx/sfx_sounds_error1.ogg")
    } else if str_eq(sfx_id, "fanfare") {
        Some("audio/sfx/sfx_sounds_fanfare1.ogg")
    } else if str_eq(sfx_id, "powerup") {
        Some("audio/sfx/sfx_sounds_powerup1.ogg")
    } else if str_eq(sfx_id, "damage") {
        Some("audio/sfx/sfx_sounds_damage1.ogg")
    } else if str_eq(sfx_id, "axe_chop") {
        Some("audio/sfx/sfx_sounds_impact2.ogg")
    } else if str_eq(sfx_id, "pickaxe_hit") {
        Some("audio/sfx/sfx_sounds_impact3.ogg")
    } else if str_eq(sfx_id, "hoe_till") {
        Some("audio/sfx/sfx_sounds_impact1.ogg")
    } else if str_eq(sfx_id, "water_splash") {
        Some("audio/sfx/sfx_sounds_interaction5.ogg")
    } else if str_eq(sfx_id, "fishing_cast") {
        Some("audio/sfx/sfx_movement_jump1.ogg")
    } else if str_eq(sfx_id, "tool_generic") {
        Some("audio/sfx/sfx_wpn_sword1.ogg")
    } else if str_eq(sfx_id, "craft_success") {
        Some("audio/sfx/sfx_sounds_fanfare1.ogg")
    } else if str_eq(sfx_id, "craft_fail") {
        Some("audio/sfx/sfx_sounds_error1.ogg")
    } else if str_eq(sfx_id, "ui_deny") {
        Some("audio/sfx/sfx_sounds_error1.ogg")
    } else if str_eq(sfx_id, "ui_notification") {
        Some("audio/sfx/sfx_menu_select1.ogg")
    } else if str_eq(sfx_id, "blacksmith_forge") {
        Some("audio/sfx/sfx_sounds_impact3.ogg")
    } else if str_eq(sfx_id, "upgrade_complete") {
        Some("audio/sfx/sfx_sounds_powerup1.ogg")
    } else if str_eq(sfx_id, "item_pickup") {
        Some("audio/sfx/sfx_coin_single1.ogg")
    } else if str_eq(sfx_id, "shop_buy") {
        Some("audio/sfx/sfx_coin_cluster1.ogg")
    } else if str_eq(sfx_id, "shop_sell") {
        Some("audio/sfx/sfx_coin_double1.ogg")
    } else if str_eq(sfx_id, "shipping_bin") {
        Some("audio/sfx/sfx_coin_double1.ogg")
    } else if str_eq(sfx_id, "eat") {
        Some("audio/sfx/sfx_coin_single1.ogg")
    } else if str_eq(sfx_id, "harvest") {
        Some("audio/sfx/sfx_coin_single1.ogg")
    } else if str_eq(sfx_id, "plant") {
        Some("audio/sfx/sfx_sounds_interaction5.ogg")
    } else if str_eq(sfx_id, "fish_escape") {
        Some("audio/sfx/sfx_sounds_error1.ogg")
    } else if str_eq(sfx_id, "thunder") {
        Some("audio/sfx/sfx_sounds_damage1.ogg")
    } else if str_eq(sfx_id, "treasure_found") {
        Some("audio/sfx/sfx_sounds_fanfare1.ogg")
    } else if str_eq(sfx_id, "rocks_broken") {
        Some("audio/sfx/sfx_sounds_impact5.ogg")
    } else {
        None
    }
}

/// The music file played for a track id.
pub open spec fn music_file(id: Seq<char>) -> Option<&'static str> {
    if id == "farm"@ || id == "spring"@ {
        Some("audio/music/pixel_1.ogg")
    } else if id == "summer"@ {
        Some("audio/music/pixel_2.ogg")
    } else if id == "fall"@ {
        Some("audio/music/pixel_3.ogg")
    } else if id == "winter"@ {
        Some("audio/music/pixel_4.ogg")
    } else if id == "town"@ {
        Some("audio/music/pixel_5.ogg")
    } else if id == "mine"@ || id == "mine_ambient"@ {
        Some("audio/music/pixel_6.ogg")
    } else if id == "forest"@ {
        Some("audio/music/pixel_7.ogg")
    } else if id == "indoor"@ {
        Some("audio/music/pixel_1.ogg")
    } else if id == "beach"@ {
        Some("audio/music/pixel_8.ogg")
    } else if id == "menu"@ {
        Some("audio/music/pixel_9.ogg")
    } else if id == "night"@ {
        Some("audio/music/pixel_10.ogg")
    } else if id == "festival"@ {
        Some("audio/music/pixel_11.ogg")
    } else if id == "credits"@ {
        Some("audio/music/pixel_12.ogg")
    } else {
        None
    }
}

pub fn music_path(track_id: &str) -> (r: Option<&'static str>)
    ensures
        r == music_file(track_id@),
{
    if str_eq(track_id, "farm") || str_eq(track_id, "spring") {
        Some("audio/music/pixel_1.ogg")
    } else if str_eq(track_id, "summer") {
        Some("audio/music/pixel_2.ogg")
    } else if str_eq(track_id, "fall") {
        Some("audio/music/pixel_3.ogg")
    } else if str_eq(track_id, "winter") {
        Some("audio/music/pixel_4.ogg")
    } else if str_eq(track_id, "town") {
        Some("audio/music/pixel_5.ogg")
    } else if str_eq(track_id, "mine") || str_eq(track_id, "mine_ambient") {
        Some("audio/music/pixel_6.ogg")
    } else if str_eq(track_id, "forest") {
        Some("audio/music/pixel_7.ogg")
    } else if str_eq(track_id, "indoor") {
        Some("audio/music/pixel_1.ogg")
    } else if str_eq(track_id, "beach") {
        Some("audio/music/pixel_8.ogg")
    } else if str_eq(track_id, "menu") {
        Some("audio/music/pixel_9.ogg")
    } else if str_eq(track_id, "night") {
        Some("audio/music/pixel_10.ogg")
    } else if str_eq(track_id, "festival") {
        Some("audio/music/pixel_11.ogg")
    } else if str_eq(track_id, "credits") {
        Some("audio/music/pixel_12.ogg")
    } else {
        None
    }
}

/// The farm's track in each season.
pub open spec fn season_track(s: Season) -> &'static str {
    match s {
        Season::Spring => "spring",
        Season::Summer => "summer",
        Season::Fall => "fall",
        Season::Winter => "winter",
    }
}

pub fn season_music(s: Season) -> (r: &'static str)
    ensures
        r == season_track(s),
{
    match s {
        Season::Spring => "spring",
        Season::Summer => "summer",
        Season::Fall => "fall",
        Season::Winter => "winter",
    }
}

/// The music track of a map: the season's track on the farm, the town,
/// mine, forest and beach tracks outdoors, and the indoor track in every
/// building.
pub open spec fn map_track(map: MapId, season: Season) -> &'static str {
    match map {
        MapId::Farm => season_track(season),
        MapId::Town => "town",
        MapId::Mine => "mine",
        MapId::Forest => "forest",
        MapId::DeepForest => "forest",
        MapId::Beach => "beach",
        MapId::MineEntrance => "forest",
        MapId::CoralIsland => "beach",
        _ => "indoor",
    }
}

pub fn music_for_map(map: MapId, season: Season) -> (r: &'static str)
    ensures
        r == map_track(map, season),
{
    match map {
        MapId::Farm => season_music(season),
        MapId::Town => "town",
        MapId::Mine => "mine",
        MapId::Forest => "forest",
        MapId::DeepForest => "forest",
        MapId::Beach => "beach",
        MapId::MineEntrance => "forest",
        MapId::CoralIsland => "beach",
        MapId::PlayerHouse | MapId::GeneralStore | MapId::AnimalShop | MapId::Blacksmith
        | MapId::TownHouseWest | MapId::TownHouseEast | MapId::Library | MapId::Tavern => "indoor",
    }
}

/// The music to switch to when the season changes: the new season's track,
/// only while the player is on the farm.
pub fn music_on_season_change(new_season: Season, current_map: MapId) -> (r: Option<&'static str>)
    ensures
        r == if current_map == MapId::Farm { Some(season_track(new_season)) } else { None::<&'static str> },
{
    if current_map == MapId::Farm { Some(season_music(new_season)) } else { None }
}

/// The shops and the player's house, whose doors make a sound.
pub open spec fn is_interior_map(m: MapId) -> bool {
    m == MapId::PlayerHouse || m == MapId::GeneralStore || m == MapId::AnimalShop || m == MapId::Blacksmith
}

/// A map change plays the door sound when it enters or leaves one of them.
pub fn door_sound_on_map_change(to_map: MapId, current_map: MapId) -> (r: bool)
    ensures
        r == (is_interior_map(to_map) || is_interior_map(current_map)),
{
    let to_inside = match to_map {
        MapId::PlayerHouse | MapId::GeneralStore | MapId::AnimalShop | MapId::Blacksmith => true,
        _ => false,
    };
    let from_inside = match current_map {
        MapId::PlayerHouse | MapId::GeneralStore | MapId::AnimalShop | MapId::Blacksmith => true,
        _ => false,
    };
    to_inside || from_inside
}

/// The track that starts when play begins: the season's, unless music is
/// already playing.
pub fn game_music_on_start(already_playing: bool, season: Season) -> (r: Option<&'static str>)
    ensures
        r == if already_playing { None::<&'static str> } else { Some(season_track(season)) },
{
    if already_playing { None } else { Some(season_music(season)) }
}

/// The music player's record of the track that plays.
#[derive(Debug, Clone)]
pub struct MusicState {
    pub current_track_id: String,
    pub playing: bool,
}

/// A request to play a track stops the current one; a known track starts
/// (its file is returned) and becomes the current one, an unknown one
/// leaves silence.
pub fn play_music(state: &mut MusicState, track_id: &str) -> (r: Option<&'static str>)
    ensures
        r == music_file(track_id@),
        r is Some ==> final(state).playing && final(state).current_track_id@ == track_id@,
        r is None ==> !final(state).playing && final(state).current_track_id@ == Seq::<char>::empty(),
{
    match music_path(track_id) {
        Some(path) => {
            state.playing = true;
            state.current_track_id = string_of(track_id);
            Some(path)
        },
        None => {
            state.playing = false;
            state.current_track_id = String::new();
            None
        },
    }
}

} // verus!
