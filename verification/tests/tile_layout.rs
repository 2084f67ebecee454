use nevidita::map::{CurrentMap, GridPos};
use nevidita::terrain::Field;
use nevidita::tiles::{
    texture_index, tile_layout, TilePlacement, IMPASSABLE_TEXTURE, TILE_SHEET, TILE_SIZE,
};

#[test]
fn tile_constants() {
    assert_eq!(TILE_SIZE, 16);
    assert_eq!(TILE_SHEET, "tiles.png");
    assert_eq!(IMPASSABLE_TEXTURE, 2);
}

#[test]
fn checkerboard_repeats_along_the_diagonal() {
    let origin = texture_index(Field::Passable, GridPos::new(0, 0));
    let diagonal = texture_index(Field::Passable, GridPos::new(1, 1));
    assert_eq!(origin, diagonal);
    assert_eq!(origin, 0);
}

#[test]
fn checkerboard_alternates_between_neighbours() {
    let origin = texture_index(Field::Passable, GridPos::new(0, 0));
    let above = texture_index(Field::Passable, GridPos::new(0, 1));
    let beside = texture_index(Field::Passable, GridPos::new(1, 0));
    assert_ne!(origin, above);
    assert_ne!(origin, beside);
    assert_eq!(above, 1);
    assert_eq!(beside, 1);
}

#[test]
fn checkerboard_follows_the_parity_of_the_sum() {
    assert_eq!(texture_index(Field::Passable, GridPos::new(2, 3)), 1);
    assert_eq!(texture_index(Field::Passable, GridPos::new(3, 3)), 0);
    assert_eq!(texture_index(Field::Passable, GridPos::new(4, 6)), 0);
    assert_eq!(texture_index(Field::Passable, GridPos::new(9, 0)), 1);
    for x in 0..12u32 {
        for y in 0..12u32 {
            assert_eq!(texture_index(Field::Passable, GridPos::new(x, y)), (x + y) % 2);
        }
    }
}

#[test]
fn checkerboard_at_the_largest_coordinates() {
    assert_eq!(texture_index(Field::Passable, GridPos::new(u32::MAX, u32::MAX)), 0);
    assert_eq!(texture_index(Field::Passable, GridPos::new(u32::MAX, 0)), 1);
    assert_eq!(texture_index(Field::Passable, GridPos::new(u32::MAX - 1, u32::MAX)), 1);
}

#[test]
fn impassable_cells_all_look_alike() {
    for (x, y) in [(0u32, 0u32), (0, 1), (1, 0), (1, 1), (7, 2), (u32::MAX, u32::MAX)] {
        assert_eq!(texture_index(Field::Impassable, GridPos::new(x, y)), 2);
    }
}

#[test]
fn default_map_lays_a_hundred_tiles_by_column() {
    let map = CurrentMap::default();
    let tiles = tile_layout(&map);
    assert_eq!(tiles.len(), 100);
    for (k, tile) in tiles.iter().enumerate() {
        let x = (k / 10) as u32;
        let y = (k % 10) as u32;
        assert_eq!(*tile, TilePlacement { pos: GridPos { x, y }, texture_index: (x + y) % 2 });
    }
    assert_eq!(tiles[0], TilePlacement { pos: GridPos { x: 0, y: 0 }, texture_index: 0 });
    assert_eq!(tiles[1], TilePlacement { pos: GridPos { x: 0, y: 1 }, texture_index: 1 });
    assert_eq!(tiles[10], TilePlacement { pos: GridPos { x: 1, y: 0 }, texture_index: 1 });
    assert_eq!(tiles[11], TilePlacement { pos: GridPos { x: 1, y: 1 }, texture_index: 0 });
    assert_eq!(tiles[99], TilePlacement { pos: GridPos { x: 9, y: 9 }, texture_index: 0 });
}

#[test]
fn wide_map_is_laid_column_by_column() {
    // row 0: P P I
    // row 1: P I P
    let cells = vec![
        Field::Passable,
        Field::Passable,
        Field::Impassable,
        Field::Passable,
        Field::Impassable,
        Field::Passable,
    ];
    let map = match CurrentMap::new(2, 3, cells) {
        Ok(map) => map,
        Err(e) => panic!("a 2 by 3 map of six cells was refused: {:?}", e),
    };
    let tiles = tile_layout(&map);
    assert_eq!(
        tiles,
        vec![
            TilePlacement { pos: GridPos { x: 0, y: 0 }, texture_index: 0 },
            TilePlacement { pos: GridPos { x: 0, y: 1 }, texture_index: 1 },
            TilePlacement { pos: GridPos { x: 1, y: 0 }, texture_index: 1 },
            TilePlacement { pos: GridPos { x: 1, y: 1 }, texture_index: 2 },
            TilePlacement { pos: GridPos { x: 2, y: 0 }, texture_index: 2 },
            TilePlacement { pos: GridPos { x: 2, y: 1 }, texture_index: 1 },
        ]
    );
}

#[test]
fn tall_map_is_laid_column_by_column() {
    // three rows of two columns; the middle row is impassable
    let cells = vec![
        Field::Passable,
        Field::Passable,
        Field::Impassable,
        Field::Impassable,
        Field::Passable,
        Field::Passable,
    ];
    let map = match CurrentMap::new(3, 2, cells) {
        Ok(map) => map,
        Err(e) => panic!("a 3 by 2 map of six cells was refused: {:?}", e),
    };
    let tiles = tile_layout(&map);
    assert_eq!(
        tiles,
        vec![
            TilePlacement { pos: GridPos { x: 0, y: 0 }, texture_index: 0 },
            TilePlacement { pos: GridPos { x: 0, y: 1 }, texture_index: 2 },
            TilePlacement { pos: GridPos { x: 0, y: 2 }, texture_index: 0 },
            TilePlacement { pos: GridPos { x: 1, y: 0 }, texture_index: 1 },
            TilePlacement { pos: GridPos { x: 1, y: 1 }, texture_index: 2 },
            TilePlacement { pos: GridPos { x: 1, y: 2 }, texture_index: 1 },
        ]
    );
}

#[test]
fn every_tile_shows_the_texture_of_its_cell() {
    let mut cells = vec![Field::Passable; 20];
    cells[7] = Field::Impassable;
    cells[13] = Field::Impassable;
    let map = match CurrentMap::new(4, 5, cells) {
        Ok(map) => map,
        Err(e) => panic!("a 4 by 5 map of twenty cells was refused: {:?}", e),
    };
    let tiles = tile_layout(&map);
    assert_eq!(tiles.len(), 20);
    for x in 0..5u32 {
        for y in 0..4u32 {
            let tile = tiles[(x * 4 + y) as usize];
            assert_eq!(tile.pos, GridPos::new(x, y));
            assert_eq!(tile.texture_index, texture_index(map.get(tile.pos), tile.pos));
        }
    }
    assert_eq!(tiles.iter().filter(|t| t.texture_index == 2).count(), 2);
}

#[test]
fn empty_map_lays_no_tiles() {
    for (height, width) in [(0u32, 0u32), (0, 3), (3, 0)] {
        let map = match CurrentMap::new(height, width, Vec::new()) {
            Ok(map) => map,
            Err(e) => panic!("an empty map was refused: {:?}", e),
        };
        assert!(tile_layout(&map).is_empty());
    }
}
