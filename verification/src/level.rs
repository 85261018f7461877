//! The level: a descriptor names a biome and a list of blocks in tile
//! coordinates; loading turns it into world coordinates; a nested state
//! machine walks the level from asset loading through construction and
//! spawning, and back to waiting when a session ends.

use vstd::prelude::*;

use crate::background::Biome;
use crate::math::Vec2i;
use crate::state::GameState;

verus! {

/// Largest tile coordinate magnitude a descriptor may hold, so that scaled
/// positions stay inside the world.
pub const TILE_COORD_LIMIT: i64 = 15_000;

/// What one level block is.
#[derive(Clone, Copy, Debug, PartialEq, Eq, Structural)]
pub enum BlockData {
    /// Solid ground.
    Dirt,
    /// A patrolling enemy's starting place.
    Enemy,
    /// A coin to pick up.
    Coin,
}

/// One entry of a level: its kind and its position.
#[derive(Clone, Copy, Debug, PartialEq, Eq, Structural)]
pub struct Block {
    pub data: BlockData,
    pub position: Vec2i,
}

/// A level as its descriptor states it: positions in tile coordinates.
#[derive(Clone, Debug, PartialEq, Eq)]
pub struct LevelAsset {
    pub name: String,
    pub biome: Biome,
    pub blocks: Vec<Block>,
}

impl LevelAsset {
    /// Every block position is a tile coordinate the world can hold.
    pub open spec fn wf(self) -> bool {
        forall|i: int| 0 <= i < self.blocks@.len()
            ==> -TILE_COORD_LIMIT <= #[trigger] self.blocks@[i].position.x <= TILE_COORD_LIMIT
                && -TILE_COORD_LIMIT <= self.blocks@[i].position.y <= TILE_COORD_LIMIT
    }
}

/// A loaded level: positions in milliunits of world space.
#[derive(Clone, Debug, PartialEq, Eq)]
pub struct Level {
    pub name: String,
    pub biome: Biome,
    pub blocks: Vec<Block>,
}

impl Level {
    /// Every block position lies in the world.
    pub open spec fn wf(self) -> bool {
        forall|i: int| 0 <= i < self.blocks@.len()
            ==> crate::in_world(#[trigger] self.blocks@[i].position.x)
                && crate::in_world(self.blocks@[i].position.y)
    }

    /// A descriptor becomes a level by scaling every block position from
    /// tile coordinates to world milliunits; name and biome carry over.
    pub fn from(asset: LevelAsset) -> (level: Level)
        requires
            asset.wf(),
        ensures
            level.wf(),
            level.name == asset.name,
            level.biome == asset.biome,
            level.blocks@.len() == asset.blocks@.len(),
            forall|i: int| 0 <= i < asset.blocks@.len()
                ==> #[trigger] level.blocks@[i] == (Block {
                    data: asset.blocks@[i].data,
                    position: Vec2i {
                        x: (asset.blocks@[i].position.x * crate::TILE) as i64,
                        y: (asset.blocks@[i].position.y * crate::TILE) as i64,
                    },
                }),
    {
        let mut blocks: Vec<Block> = Vec::new();
        let mut i: usize = 0;
        while i < asset.blocks.len()
            invariant
                i <= asset.blocks@.len(),
                asset.wf(),
                blocks@.len() == i,
                forall|k: int| 0 <= k < i ==> #[trigger] blocks@[k] == (Block {
                    data: asset.blocks@[k].data,
                    position: Vec2i {
                        x: (asset.blocks@[k].position.x * crate::TILE) as i64,
                        y: (asset.blocks@[k].position.y * crate::TILE) as i64,
                    },
                }),
            decreases asset.blocks@.len() - i,
        {
            let block = asset.blocks[i];
            blocks.push(Block {
                data: block.data,
                position: Vec2i::new(block.position.x * crate::TILE, block.position.y * crate::TILE),
            });
            i = i + 1;
        }
        Level { name: asset.name, biome: asset.biome, blocks }
    }
}

/// The slots textures are loaded into before spawning.
#[derive(Clone, Copy, Debug, PartialEq, Eq, Hash, Structural)]
pub enum ImageHandleId {
    Enemy,
    Coin,
    BackgroundSwampHills0,
    BackgroundSwampHills1,
    BackgroundSwampHills2,
    BackgroundSwampIsland0,
    BackgroundSwampIsland1,
    BackgroundSwampIsland2,
    BackgroundSwampKelp0,
    BackgroundSwampKelp1,
    BackgroundSwampPond,
}

/// Where the level stands in its life: assets load asynchronously, the
/// descriptor becomes a level, the level waits for the game to start, its
/// entities spawn, and the level is live.
#[derive(Clone, Copy, Debug, PartialEq, Eq, Hash, Structural)]
pub enum LevelState {
    LoadingAssets,
    ConstructingLevel,
    SpawningBlocks,
    WaitingForLevelStart,
    Loaded,
}

impl Default for LevelState {
    /// A level begins by loading its assets.
    fn default() -> (s: LevelState)
        ensures
            s is LoadingAssets,
    {
        LevelState::LoadingAssets
    }
}

/// One polling tick while assets load: once the descriptor has materialized,
/// construction can start. Until then the loader simply retries next tick.
pub fn wait_for_level_load(level_state: &mut LevelState, descriptor_ready: bool)
    requires
        *old(level_state) is LoadingAssets,
    ensures
        descriptor_ready ==> *final(level_state) is ConstructingLevel,
        !descriptor_ready ==> *final(level_state) == *old(level_state),
{
    if descriptor_ready {
        *level_state = LevelState::ConstructingLevel;
    }
}

/// Construction: a present descriptor becomes the level and the machine
/// waits for the game to start. An absent descriptor keeps the machine in
/// construction indefinitely; nothing recovers it.
pub fn construct_level_res(level_state: &mut LevelState, asset: Option<LevelAsset>)
    -> (level: Option<Level>)
    requires
        *old(level_state) is ConstructingLevel,
        asset matches Some(a) ==> a.wf(),
    ensures
        asset is None ==> level is None && *final(level_state) == *old(level_state),
        asset matches Some(a) ==> {
            &&& *final(level_state) is WaitingForLevelStart
            &&& level matches Some(l)
            &&& l.wf()
            &&& l.name == a.name
            &&& l.biome == a.biome
            &&& l.blocks@.len() == a.blocks@.len()
            &&& forall|i: int| 0 <= i < a.blocks@.len()
                ==> #[trigger] l.blocks@[i] == (Block {
                    data: a.blocks@[i].data,
                    position: Vec2i {
                        x: (a.blocks@[i].position.x * crate::TILE) as i64,
                        y: (a.blocks@[i].position.y * crate::TILE) as i64,
                    },
                })
        },
{
    match asset {
        Some(a) => {
            let level = Level::from(a);
            *level_state = LevelState::WaitingForLevelStart;
            Some(level)
        }
        None => None,
    }
}

/// One polling tick while waiting: when the game has entered play, the
/// level's entities are due to spawn.
pub fn wait_for_level_start(level_state: &mut LevelState, game_state: &GameState)
    requires
        *old(level_state) is WaitingForLevelStart,
    ensures
        *game_state is InGame ==> *final(level_state) is SpawningBlocks,
        !(*game_state is InGame) ==> *final(level_state) == *old(level_state),
{
    if matches!(game_state, GameState::InGame) {
        *level_state = LevelState::SpawningBlocks;
    }
}

/// After a session ends the level waits for the next start: the loaded
/// descriptor is retained, only the spawn state is reset.
pub fn reprime_level_state(level_state: &mut LevelState)
    ensures
        *final(level_state) is WaitingForLevelStart,
{
    *level_state = LevelState::WaitingForLevelStart;
}

} // verus!
