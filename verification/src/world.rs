use vstd::prelude::*;

verus! {

// Tile ids of the tile set, in sprite-sheet order.
/// Grass.
pub const G: u8 = 0;
/// Dirt (available in the tile set, not placed on the map).
pub const D: u8 = 1;
/// Path running horizontally.
pub const PH: u8 = 2;
/// Path running vertically.
pub const PV: u8 = 3;
/// Path crossing.
pub const PC: u8 = 4;
/// Wall, front face.
pub const WF: u8 = 5;
/// Wall, side face.
pub const WS: u8 = 6;
/// Roof.
pub const RF: u8 = 7;
/// Door.
pub const DR: u8 = 8;
/// Window.
pub const WN: u8 = 9;
/// Tree.
pub const TR: u8 = 14;
/// Flower.
pub const FL: u8 = 15;

/// Number of tile columns of the map.
pub const MAP_W: usize = 40;
/// Number of tile rows of the map.
pub const MAP_H: usize = 37;

/// The world map, row by row from the top; `MAP[row][col]` is a tile id.
pub const MAP: [[u8; MAP_W]; MAP_H] = [
    [TR, TR, TR, TR, TR, TR, TR, TR, TR, TR, TR, TR, TR, TR, TR, TR, TR, TR, TR, TR, TR, TR, TR, TR, TR, TR, TR, TR, TR, TR, TR, TR, TR, TR, TR, TR, TR, TR, TR, TR],
    [TR, G, G, G, G, G, G, G, G, G, G, G, G, G, G, G, G, G, G, PV, PV, G, G, G, G, G, G, G, G, G, G, G, G, G, G, G, G, G, G, TR],
    [TR, G, G, FL, G, G, G, G, G, G, G, G, G, G, G, G, G, G, G, PV, PV, G, G, G, G, G, G, G, G, G, G, G, FL, G, G, G, G, G, G, TR],
    [TR, G, G, G, G, G, G, G, G, G, G, G, G, G, G, G, G, G, G, PV, PV, G, G, G, G, G, G, G, G, G, G, G, G, G, G, G, G, G, G, TR],
    [TR, G, RF, RF, RF, RF, G, G, RF, RF, RF, RF, G, G, G, G, G, G, G, PV, PV, G, G, G, G, G, RF, RF, RF, RF, G, G, RF, RF, RF, RF, G, G, G, TR],
    [TR, G, WS, WF, WF, WS, G, G, WS, WF, WF, WS, G, FL, G, FL, G, G, G, PV, PV, G, G, FL, G, G, WS, WF, WF, WS, G, G, WS, WF, WF, WS, G, G, G, TR],
    [TR, G, WS, DR, WN, WS, G, G, WS, DR, WN, WS, G, G, G, G, G, G, G, PV, PV, G, G, G, G, G, WS, DR, WN, WS, G, G, WS, DR, WN, WS, G, G, G, TR],
    [TR, G, G, G, G, G, G, G, G, G, G, G, G, G, G, G, G, G, G, PV, PV, G, G, G, G, G, G, G, G, G, G, G, G, G, G, G, G, G, G, TR],
    [TR, G, G, FL, G, G, G, FL, G, G, G, G, G, G, TR, G, G, G, G, PV, PV, G, G, G, TR, G, G, FL, G, G, G, G, G, TR, G, FL, G, G, G, TR],
    [TR, G, G, G, G, G, G, G, G, G, G, G, G, G, G, G, G, G, G, PV, PV, G, G, G, G, G, G, G, G, G, G, G, G, G, G, G, G, G, G, TR],
    [TR, G, G, G, G, G, G, G, G, G, G, G, G, G, G, G, G, G, G, PV, PV, G, G, G, G, G, G, G, G, G, G, G, G, G, G, G, G, G, G, TR],
    [PH, PH, PH, PH, PH, PH, PH, PH, PH, PH, PH, PH, PH, PH, PH, PH, PH, PH, PH, PC, PC, PH, PH, PH, PH, PH, PH, PH, PH, PH, PH, PH, PH, PH, PH, PH, PH, PH, PH, PH],
    [PH, PH, PH, PH, PH, PH, PH, PH, PH, PH, PH, PH, PH, PH, PH, PH, PH, PH, PH, PC, PC, PH, PH, PH, PH, PH, PH, PH, PH, PH, PH, PH, PH, PH, PH, PH, PH, PH, PH, PH],
    [TR, G, G, G, G, G, G, G, G, G, G, G, G, G, G, G, G, G, G, PV, PV, G, G, G, G, G, G, G, G, G, G, G, G, G, G, G, G, G, G, TR],
    [TR, G, G, G, G, G, G, G, G, FL, G, G, G, G, G, G, G, G, G, PV, PV, G, G, G, G, G, G, G, FL, G, G, G, G, G, G, G, G, G, G, TR],
    [TR, G, RF, RF, RF, RF, RF, G, G, G, G, G, G, G, TR, G, G, G, G, PV, PV, G, G, G, G, TR, G, G, G, G, G, RF, RF, RF, RF, RF, G, G, G, TR],
    [TR, G, WS, WF, WF, WF, WS, G, G, G, G, G, G, G, G, G, G, G, G, PV, PV, G, G, G, G, G, G, G, G, G, G, WS, WF, WF, WF, WS, G, G, G, TR],
    [TR, G, WS, WN, DR, WN, WS, G, G, G, FL, G, G, G, G, G, G, G, G, PV, PV, G, G, G, G, G, G, G, FL, G, G, WS, WN, DR, WN, WS, G, G, G, TR],
    [TR, G, WS, WF, WF, WF, WS, G, G, G, G, G, G, G, G, G, G, G, G, PV, PV, G, G, G, G, G, G, G, G, G, G, WS, WF, WF, WF, WS, G, G, G, TR],
    [TR, G, G, G, G, G, G, G, G, G, G, G, TR, G, G, G, G, G, G, PV, PV, G, G, G, G, G, TR, G, G, G, G, G, G, G, G, G, G, G, G, TR],
    [TR, G, G, FL, G, G, G, G, G, G, G, G, G, G, G, G, G, G, G, PV, PV, G, G, G, G, G, G, G, G, G, G, G, FL, G, G, G, G, G, G, TR],
    [TR, G, G, G, G, G, G, G, G, G, G, G, G, G, G, G, G, G, G, PV, PV, G, G, G, G, G, G, G, G, G, G, G, G, G, G, G, G, G, G, TR],
    [PH, PH, PH, PH, PH, PH, PH, PH, PH, PH, PH, PH, PH, PH, PH, PH, PH, PH, PH, PC, PC, PH, PH, PH, PH, PH, PH, PH, PH, PH, PH, PH, PH, PH, PH, PH, PH, PH, PH, PH],
    [PH, PH, PH, PH, PH, PH, PH, PH, PH, PH, PH, PH, PH, PH, PH, PH, PH, PH, PH, PC, PC, PH, PH, PH, PH, PH, PH, PH, PH, PH, PH, PH, PH, PH, PH, PH, PH, PH, PH, PH],
    [TR, G, G, G, G, G, G, G, G, G, G, TR, G, G, G, FL, G, G, G, PV, PV, G, G, G, FL, G, G, TR, G, G, G, G, G, G, G, G, G, G, G, TR],
    [TR, G, RF, RF, RF, RF, G, G, G, G, G, G, G, G, G, G, G, G, G, PV, PV, G, G, G, G, G, G, G, G, G, G, RF, RF, RF, RF, G, G, G, G, TR],
    [TR, G, WS, WF, WF, WS, G, G, G, G, G, G, G, G, G, G, G, G, G, PV, PV, G, G, G, G, G, G, G, G, G, G, WS, WF, WF, WS, G, G, G, G, TR],
    [TR, G, WS, DR, WN, WS, G, G, G, FL, G, G, G, G, G, G, G, G, G, PV, PV, G, G, G, G, G, G, FL, G, G, G, WS, DR, WN, WS, G, G, G, G, TR],
    [TR, G, G, G, G, G, G, G, G, G, G, G, G, G, G, G, G, G, G, PV, PV, G, G, G, G, G, G, G, G, G, G, G, G, G, G, G, G, G, G, TR],
    [TR, G, G, G, G, G, G, G, G, G, G, G, G, G, G, G, G, G, G, PV, PV, G, G, G, G, G, G, G, G, G, G, G, G, G, G, G, G, G, G, TR],
    [TR, G, G, G, G, FL, G, G, G, G, G, G, G, G, G, G, G, G, G, PV, PV, G, G, G, G, G, G, G, G, G, G, G, G, FL, G, G, G, G, G, TR],
    [TR, G, G, G, G, G, G, G, G, G, G, G, G, G, G, G, G, G, G, PV, PV, G, G, G, G, G, G, G, G, G, G, G, G, G, G, G, G, G, G, TR],
    [TR, G, G, G, G, G, G, G, TR, G, G, G, G, G, G, G, G, G, G, PV, PV, G, G, G, G, G, G, G, TR, G, G, G, G, G, G, G, G, G, G, TR],
    [TR, G, G, G, G, G, G, G, G, G, G, G, G, G, G, G, G, G, G, PV, PV, G, G, G, G, G, G, G, G, G, G, G, G, G, G, G, G, G, G, TR],
    [TR, G, G, FL, G, G, G, G, G, G, G, G, G, G, G, G, G, G, G, PV, PV, G, G, G, G, G, G, G, G, G, G, G, G, G, FL, G, G, G, G, TR],
    [TR, G, G, G, G, G, G, G, G, G, G, G, G, G, G, G, G, G, G, PV, PV, G, G, G, G, G, G, G, G, G, G, G, G, G, G, G, G, G, G, TR],
    [TR, TR, TR, TR, TR, TR, TR, TR, TR, TR, TR, TR, TR, TR, TR, TR, TR, TR, TR, TR, TR, TR, TR, TR, TR, TR, TR, TR, TR, TR, TR, TR, TR, TR, TR, TR, TR, TR, TR, TR],
];

/// The drawing layer of a map tile.
#[derive(Clone, Copy, PartialEq, Eq, Debug, Structural)]
pub enum TileLayer {
    /// Drawn behind characters.
    Background,
    /// Drawn in front of characters.
    Foreground,
}

/// Whether the tile with this id blocks movement.
pub open spec fn spec_is_solid_tile(tile_id: u8) -> bool {
    tile_id == WF || tile_id == WS || tile_id == TR || tile_id == RF
}

/// Collision data: which tiles block movement.
pub fn is_solid_tile(tile_id: u8) -> (solid: bool)
    ensures
        solid == spec_is_solid_tile(tile_id),
{
    tile_id == WF || tile_id == WS || tile_id == TR || tile_id == RF
}

/// The layer a tile is drawn on: walls, roofs, doors, windows and trees are
/// in front of the characters, everything else behind them.
pub open spec fn spec_tile_layer(tile_id: u8) -> TileLayer {
    if tile_id == WF || tile_id == WS || tile_id == RF || tile_id == DR || tile_id == WN
        || tile_id == TR {
        TileLayer::Foreground
    } else {
        TileLayer::Background
    }
}

/// The layer on which a tile is drawn.
pub fn get_tile_layer(tile_id: u8) -> (layer: TileLayer)
    ensures
        layer == spec_tile_layer(tile_id),
{
    if tile_id == WF || tile_id == WS || tile_id == RF || tile_id == DR || tile_id == WN {
        TileLayer::Foreground
    } else if tile_id == TR {
        TileLayer::Foreground
    } else {
        TileLayer::Background
    }
}

/// The tile in column `tile_x` and row `tile_y`, or `None` off the map.
pub open spec fn spec_tile_at(tile_x: int, tile_y: int) -> Option<u8> {
    if 0 <= tile_x < MAP_W && 0 <= tile_y < MAP_H {
        Some(MAP[tile_y][tile_x])
    } else {
        None
    }
}

/// The mapped tile in grid cell (`tile_x`, `tile_y`), if the cell lies on the map.
/// Columns count from the left edge of the map, rows from its top edge.
pub fn world_tile_at_cell(tile_x: i32, tile_y: i32) -> (tile: Option<u8>)
    ensures
        tile == spec_tile_at(tile_x as int, tile_y as int),
{
    if tile_x < 0 || tile_x >= MAP_W as i32 || tile_y < 0 || tile_y >= MAP_H as i32 {
        return None;
    }
    Some(MAP[tile_y as usize][tile_x as usize])
}

/// A tile can be walked on when it is on the map and not solid.
pub open spec fn spec_is_walkable(tile: Option<u8>) -> bool {
    match tile {
        Some(tile_id) => !spec_is_solid_tile(tile_id),
        None => false,
    }
}

/// A bullet flies on over every tile of the map and stops once it has left
/// the map.
pub open spec fn spec_stops_bullet(tile: Option<u8>) -> bool {
    tile is None
}

/// Whether a looked-up tile can be walked on.
pub fn is_walkable_tile(tile: Option<u8>) -> (walkable: bool)
    ensures
        walkable == spec_is_walkable(tile),
{
    match tile {
        Some(tile_id) => !is_solid_tile(tile_id),
        None => false,
    }
}

/// Whether a bullet over the looked-up tile stops: only off the map.
pub fn stops_bullet(tile: Option<u8>) -> (stops: bool)
    ensures
        stops == spec_stops_bullet(tile),
{
    tile.is_none()
}

/// Whether grid cell (`tile_x`, `tile_y`) is not inside a solid tile.
pub fn is_walkable_cell(tile_x: i32, tile_y: i32) -> (walkable: bool)
    ensures
        walkable == spec_is_walkable(spec_tile_at(tile_x as int, tile_y as int)),
{
    is_walkable_tile(world_tile_at_cell(tile_x, tile_y))
}

/// Whether a bullet in grid cell (`tile_x`, `tile_y`) has left the map.
pub fn bullet_left_map_at_cell(tile_x: i32, tile_y: i32) -> (left: bool)
    ensures
        left == spec_stops_bullet(spec_tile_at(tile_x as int, tile_y as int)),
{
    stops_bullet(world_tile_at_cell(tile_x, tile_y))
}

/// Every walkable cell lies on the map: nothing can walk off its edge.
pub proof fn lemma_walkable_cells_are_on_the_map(tile_x: int, tile_y: int)
    requires
        spec_is_walkable(spec_tile_at(tile_x, tile_y)),
    ensures
        0 <= tile_x < MAP_W,
        0 <= tile_y < MAP_H,
{
}

/// Bullets travel on until they leave the map: a bullet stops in a cell
/// exactly when the cell is off the map, so nothing on the map stops it, and
/// every cell that can be walked on lets it through.
pub proof fn lemma_bullets_stop_only_off_the_map(tile_x: int, tile_y: int)
    ensures
        spec_stops_bullet(spec_tile_at(tile_x, tile_y)) <==> !(0 <= tile_x < MAP_W && 0 <= tile_y
            < MAP_H),
        spec_is_walkable(spec_tile_at(tile_x, tile_y)) ==> !spec_stops_bullet(
            spec_tile_at(tile_x, tile_y),
        ),
{
}

/// Every solid tile is drawn in front of the characters.
pub proof fn lemma_solid_tiles_are_foreground(tile_id: u8)
    requires
        spec_is_solid_tile(tile_id),
    ensures
        spec_tile_layer(tile_id) == TileLayer::Foreground,
{
}

/// The top and bottom rows of the map are lined with trees, so nothing walks
/// out across the top or bottom edge.
pub proof fn lemma_top_and_bottom_rows_are_solid(col: int)
    requires
        0 <= col < MAP_W,
    ensures
        spec_tile_at(col, 0) == Some(TR),
        spec_tile_at(col, MAP_H - 1) == Some(TR),
{
}

/// The left and right columns of the map are lined with trees except where the
/// two roads leave the map; those road tiles are the only walkable edge cells
/// on the sides.
pub proof fn lemma_side_columns_are_solid_except_roads(row: int)
    requires
        0 <= row < MAP_H,
    ensures
        spec_is_walkable(spec_tile_at(0, row)) <==> (row == 11 || row == 12 || row == 22 || row
            == 23),
        spec_is_walkable(spec_tile_at(MAP_W - 1, row)) <==> (row == 11 || row == 12 || row == 22
            || row == 23),
{
}

} // verus!
