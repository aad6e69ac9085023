use crate::render_steps::RenderSteps;
use crate::sprite::Sprite;
use crate::sprite::TextureHandle;
use vstd::prelude::*;

verus! {

/// The edge of a block, in pixels.
pub const BLOCK_SIZE: i64 = 32;

/// What a cell of the world is made of.
#[derive(Clone, Copy, Debug, PartialEq, Eq, Hash, Structural)]
pub enum BlockType {
    Stone,
    StoneLadder,
}

/// The textures that a block of each type may be drawn with.
#[derive(Clone, Debug)]
pub struct BlockTextures {
    stone: Vec<TextureHandle>,
    stone_ladder: Vec<TextureHandle>,
}

/// A sprite and the place in the world where it stands, in pixels.
#[derive(Clone, Debug)]
pub struct PlacedSprite {
    pub sprite: Sprite,
    pub x: i64,
    pub y: i64,
}

/// A block of the world: what it is made of, and the sprite that it is drawn
/// with.
#[derive(Clone, Debug)]
pub struct Block {
    pub block_type: BlockType,
    pub sprite: PlacedSprite,
}

/// One entry of a grid: a block, and the cell that it fills.
#[derive(Clone, Debug)]
pub struct Cell {
    pub x: i32,
    pub y: i32,
    pub block: Block,
}

/// The blocks of the world, at most one in each cell.
#[derive(Debug)]
pub struct Grid {
    cells: Vec<Cell>,
}

impl BlockType {
    /// Whether bodies are stopped by a block of this type: every type stops them.
    pub fn is_colliding(&self) -> (r: bool)
        ensures
            r,
    {
        true
    }

    /// Whether a block of this type can be climbed: only a ladder can.
    pub fn is_climbable(&self) -> (r: bool)
        ensures
            r == (*self == BlockType::StoneLadder),
    {
        match *self {
            BlockType::StoneLadder => true,
            _ => false,
        }
    }
}

impl BlockTextures {
    /// The textures that a block of type `block_type` may be drawn with.
    pub closed spec fn of(&self, block_type: BlockType) -> Seq<TextureHandle> {
        match block_type {
            BlockType::Stone => self.stone@,
            BlockType::StoneLadder => self.stone_ladder@,
        }
    }

    /// No texture for any type.
    pub fn new() -> (textures: BlockTextures)
        ensures
            forall|block_type: BlockType| textures.of(block_type) == Seq::<TextureHandle>::empty(),
    {
        BlockTextures { stone: Vec::new(), stone_ladder: Vec::new() }
    }

    /// Makes `choices` the textures of `block_type`, in place of those it had.
    pub fn insert(&mut self, block_type: BlockType, choices: Vec<TextureHandle>)
        ensures
            final(self).of(block_type) == choices@,
            forall|other: BlockType|
                other != block_type ==> final(self).of(other) == old(self).of(other),
    {
        match block_type {
            BlockType::Stone => {
                self.stone = choices;
            },
            BlockType::StoneLadder => {
                self.stone_ladder = choices;
            },
        }
    }

    /// The textures that a block of type `block_type` may be drawn with.
    pub fn get(&self, block_type: &BlockType) -> (choices: &Vec<TextureHandle>)
        ensures
            choices@ == self.of(*block_type),
    {
        match *block_type {
            BlockType::Stone => &self.stone,
            BlockType::StoneLadder => &self.stone_ladder,
        }
    }
}

impl Grid {
    #[verifier::type_invariant]
    spec fn cells_apart(self) -> bool {
        forall|i: int, j: int|
            0 <= i < j < self.cells@.len() ==> !(self.cells@[i].x == self.cells@[j].x
                && self.cells@[i].y == self.cells@[j].y)
    }

    spec fn fills(self, i: int, x: int, y: int) -> bool {
        0 <= i < self.cells@.len() && self.cells@[i].x == x && self.cells@[i].y == y
    }

    /// The cells that are filled, each with its block.
    pub closed spec fn view(&self) -> Map<(int, int), Block> {
        Map::new(
            |cell: (int, int)| exists|i: int| self.fills(i, cell.0, cell.1),
            |cell: (int, int)| self.cells@[choose|i: int| self.fills(i, cell.0, cell.1)].block,
        )
    }

    proof fn lemma_filled(self, i: int, x: int, y: int)
        requires
            self.cells_apart(),
            self.fills(i, x, y),
        ensures
            self@.dom().contains((x, y)),
            self@[(x, y)] == self.cells@[i].block,
    {
        let cell = (x, y);
        assert(self.fills(i, cell.0, cell.1));
        let j = choose|j: int| self.fills(j, cell.0, cell.1);
        assert(self.fills(j, cell.0, cell.1));
        assert(i == j);
    }

    /// The grid without any block.
    pub fn new() -> (grid: Grid)
        ensures
            grid@ == Map::<(int, int), Block>::empty(),
    {
        let grid = Grid { cells: Vec::new() };
        assert(grid@ =~= Map::<(int, int), Block>::empty());
        grid
    }

    fn position(&self, x: i32, y: i32) -> (found: Option<usize>)
        ensures
            match found {
                Some(i) => self.fills(i as int, x as int, y as int),
                None => forall|i: int| !self.fills(i, x as int, y as int),
            },
    {
        let mut i: usize = 0;
        while i < self.cells.len()
            invariant
                i <= self.cells@.len(),
                forall|j: int| 0 <= j < i ==> !self.fills(j, x as int, y as int),
            decreases self.cells@.len() - i,
        {
            if self.cells[i].x == x && self.cells[i].y == y {
                return Some(i);
            }
            i = i + 1;
        }
        None
    }

    /// The block in the cell `(x, y)`, if it is filled.
    pub fn get(&self, x: i32, y: i32) -> (block: Option<&Block>)
        ensures
            block == (if self@.dom().contains((x as int, y as int)) {
                Some(&self@[(x as int, y as int)])
            } else {
                None
            }),
    {
        proof {
            use_type_invariant(self);
        }
        match self.position(x, y) {
            Some(i) => {
                proof {
                    self.lemma_filled(i as int, x as int, y as int);
                }
                Some(&self.cells[i].block)
            },
            None => {
                assert(!self@.dom().contains((x as int, y as int)));
                None
            },
        }
    }

    /// The filled cells, each once and with its block, in no order that
    /// callers may rely on.
    pub fn cells(&self) -> (cells: &Vec<Cell>)
        ensures
            forall|i: int|
                0 <= i < cells@.len() ==> {
                    let cell = (#[trigger] cells@[i].x as int, cells@[i].y as int);
                    self@.dom().contains(cell) && self@[cell] == cells@[i].block
                },
            forall|cell: (int, int)|
                self@.dom().contains(cell) ==> exists|i: int|
                    0 <= i < cells@.len() && (#[trigger] cells@[i]).x == cell.0 && cells@[i].y
                        == cell.1,
            forall|i: int, j: int|
                0 <= i < j < cells@.len() ==> !(cells@[i].x == cells@[j].x && cells@[i].y
                    == cells@[j].y),
    {
        proof {
            use_type_invariant(self);
            assert forall|i: int| 0 <= i < self.cells@.len() implies {
                let cell = (#[trigger] self.cells@[i].x as int, self.cells@[i].y as int);
                self@.dom().contains(cell) && self@[cell] == self.cells@[i].block
            } by {
                self.lemma_filled(i, self.cells@[i].x as int, self.cells@[i].y as int);
            }
            assert forall|cell: (int, int)| self@.dom().contains(cell) implies exists|i: int|
                0 <= i < self.cells@.len() && (#[trigger] self.cells@[i]).x == cell.0
                    && self.cells@[i].y == cell.1 by {
                let i = choose|i: int| self.fills(i, cell.0, cell.1);
                assert(self.cells@[i].x == cell.0);
            }
        }
        &self.cells
    }

    /// Fills the cell `(x, y)` with `block`, in place of what was there.
    pub fn insert(&mut self, x: i32, y: i32, block: Block)
        ensures
            final(self)@ == old(self)@.insert((x as int, y as int), block),
    {
        proof {
            use_type_invariant(&*self);
        }
        let found = self.position(x, y);
        let mut cells: Vec<Cell> = Vec::new();
        std::mem::swap(&mut cells, &mut self.cells);
        let ghost before = cells@;
        match found {
            Some(i) => {
                cells[i] = Cell { x, y, block };
            },
            None => {
                cells.push(Cell { x, y, block });
            },
        }
        proof {
            assert forall|i: int, j: int| 0 <= i < j < cells@.len() implies !(cells@[i].x
                == cells@[j].x && cells@[i].y == cells@[j].y) by {
                if found is None {
                    assert(!old(self).fills(i, x as int, y as int));
                }
                if i < before.len() && j < before.len() {
                    assert(!(before[i].x == before[j].x && before[i].y == before[j].y));
                }
            }
        }
        self.cells = cells;
        proof {
            let key = (x as int, y as int);
            assert forall|cell: (int, int)|
                self@.dom().contains(cell) == old(self)@.insert(key, block).dom().contains(
                    cell,
                ) by {
                if old(self)@.dom().contains(cell) {
                    let i = choose|i: int| old(self).fills(i, cell.0, cell.1);
                    assert(self.fills(i, cell.0, cell.1));
                }
                if cell == key {
                    match found {
                        Some(i) => {
                            assert(self.fills(i as int, cell.0, cell.1));
                        },
                        None => {
                            assert(self.fills(before.len() as int, cell.0, cell.1));
                        },
                    }
                }
                if self@.dom().contains(cell) && cell != key {
                    let i = choose|i: int| self.fills(i, cell.0, cell.1);
                    assert(old(self).fills(i, cell.0, cell.1));
                }
            }
            assert forall|cell: (int, int)| self@.dom().contains(cell) implies self@[cell] == old(
                self,
            )@.insert(key, block)[cell] by {
                let i = choose|i: int| self.fills(i, cell.0, cell.1);
                if cell != key {
                    assert(old(self).fills(i, cell.0, cell.1));
                    let j = choose|j: int| old(self).fills(j, cell.0, cell.1);
                    assert(i == j);
                }
            }
            assert(self@ =~= old(self)@.insert(key, block));
        }
    }

    /// Puts the blocks of a prefab into the grid, each moved by `offset` and
    /// drawn with a texture picked at random from those of its type. Where
    /// two blocks land in one cell, the later one stays. Every moved cell
    /// must be a cell, and every type must have a texture to pick.
    pub fn add_prefab(
        &mut self,
        blocks: Vec<(BlockType, (i32, i32))>,
        offset: (i32, i32),
        textures: &BlockTextures,
    )
        requires
            forall|i: int|
                0 <= i < blocks@.len() ==> {
                    &&& i32::MIN <= (#[trigger] blocks@[i]).1.0 + offset.0 <= i32::MAX
                    &&& i32::MIN <= blocks@[i].1.1 + offset.1 <= i32::MAX
                    &&& textures.of(blocks@[i].0).len() > 0
                },
        ensures
            prefab_added(old(self)@, final(self)@, blocks@, offset, blocks@.len() as int, *textures),
    {
        let mut n: usize = 0;
        while n < blocks.len()
            invariant
                n <= blocks@.len(),
                forall|i: int|
                    0 <= i < blocks@.len() ==> {
                        &&& i32::MIN <= (#[trigger] blocks@[i]).1.0 + offset.0 <= i32::MAX
                        &&& i32::MIN <= blocks@[i].1.1 + offset.1 <= i32::MAX
                        &&& textures.of(blocks@[i].0).len() > 0
                    },
                prefab_added(old(self)@, self@, blocks@, offset, n as int, *textures),
            decreases blocks@.len() - n,
        {
            let block_type = blocks[n].0;
            let moved = offset_cell(blocks[n].1, offset);
            let sprite = sprite_for_block(&block_type, moved.0, moved.1, textures);
            let block = Block { block_type, sprite };
            let ghost earlier = self@;
            self.insert(moved.0, moved.1, block);
            proof {
                let here = (moved.0 as int, moved.1 as int);
                let first = old(self)@;
                let next = n + 1;
                assert(lands_in(blocks@, offset, next, n as int, here));
                assert forall|cell: (int, int)|
                    self@.dom().contains(cell) <==> first.dom().contains(cell) || exists|i: int|
                        lands_in(blocks@, offset, next, i, cell) by {
                    if exists|i: int| lands_in(blocks@, offset, n as int, i, cell) {
                        let i = choose|i: int| lands_in(blocks@, offset, n as int, i, cell);
                        assert(lands_in(blocks@, offset, next, i, cell));
                    }
                    if exists|i: int| lands_in(blocks@, offset, next, i, cell) {
                        let i = choose|i: int| lands_in(blocks@, offset, next, i, cell);
                        if i < n {
                            assert(lands_in(blocks@, offset, n as int, i, cell));
                        }
                    }
                }
                assert forall|cell: (int, int)|
                    first.dom().contains(cell) && !(exists|i: int|
                        lands_in(blocks@, offset, next, i, cell)) implies self@[cell]
                    == first[cell] by {
                    assert(cell != here);
                    if exists|i: int| lands_in(blocks@, offset, n as int, i, cell) {
                        let i = choose|i: int| lands_in(blocks@, offset, n as int, i, cell);
                        assert(lands_in(blocks@, offset, next, i, cell));
                    }
                }
                assert forall|cell: (int, int), i: int|
                    lands_in(blocks@, offset, next, i, cell) && (forall|j: int|
                        i < j ==> !lands_in(blocks@, offset, next, j, cell)) implies block_made_for(
                    self@[cell],
                    blocks@[i].0,
                    cell.0,
                    cell.1,
                    *textures,
                ) by {
                    if cell == here {
                        if i < n {
                            assert(!lands_in(blocks@, offset, next, n as int, cell));
                        }
                    } else {
                        assert(lands_in(blocks@, offset, n as int, i, cell));
                        assert forall|j: int| i < j implies !lands_in(
                            blocks@,
                            offset,
                            n as int,
                            j,
                            cell,
                        ) by {
                            assert(!lands_in(blocks@, offset, next, j, cell));
                        }
                    }
                }
            }
            n = n + 1;
        }
    }
}

/// Calls rand's `IndexedRandom::choose` on the slice of `choices`, with the
/// thread's generator from `rand::rng`. The pick is random, so all that is
/// claimed is what holds of every pick: of an empty slice `choose` returns
/// `None`, of any other a reference to one of its elements. One thing is
/// not ruled out: `rand::rng` panics where the system cannot seed the
/// thread's generator.
#[verifier::external_body]
fn choose_texture(choices: &Vec<TextureHandle>) -> (picked: Option<TextureHandle>)
    ensures
        picked is None <==> choices@.len() == 0,
        picked is Some ==> choices@.contains(picked->0),
{
    let mut rng = rand::rng();
    rand::seq::IndexedRandom::choose(choices.as_slice(), &mut rng).copied()
}

/// Calls nalgebra's `+` on two `Vector2<i32>`, which adds the two vectors
/// component by component with `i32`'s own `+`; the sums must fit.
#[verifier::external_body]
fn offset_cell(cell: (i32, i32), offset: (i32, i32)) -> (moved: (i32, i32))
    requires
        i32::MIN <= cell.0 + offset.0 <= i32::MAX,
        i32::MIN <= cell.1 + offset.1 <= i32::MAX,
    ensures
        moved.0 == cell.0 + offset.0,
        moved.1 == cell.1 + offset.1,
{
    let moved = nalgebra::Vector2::new(cell.0, cell.1) + nalgebra::Vector2::new(offset.0, offset.1);
    (moved.x, moved.y)
}

/// Whether `placed` is the sprite of a block in the cell `(x, y)` that is
/// drawn with `texture`: it stands at the cell's corner and shows that
/// texture in the diffuse pass, and nothing in any other.
pub open spec fn sprite_shows(placed: PlacedSprite, x: int, y: int, texture: TextureHandle) -> bool {
    &&& placed.x == x * BLOCK_SIZE
    &&& placed.y == y * BLOCK_SIZE
    &&& placed.sprite.textures() == Map::<RenderSteps, TextureHandle>::empty().insert(
        RenderSteps::Diffuse,
        texture,
    )
    &&& placed.sprite.texture_size() == (texture.width, texture.height)
}

/// Whether `placed` is the sprite of a block of type `block_type` in the
/// cell `(x, y)`, drawn with one of the textures that `textures` has for that
/// type.
pub open spec fn sprite_made_for(
    placed: PlacedSprite,
    block_type: BlockType,
    x: int,
    y: int,
    textures: BlockTextures,
) -> bool {
    exists|texture: TextureHandle|
        textures.of(block_type).contains(texture) && #[trigger] sprite_shows(placed, x, y, texture)
}

/// Whether `block` is a block of type `block_type` made for the cell
/// `(x, y)`, drawn with one of the textures that `textures` has for that type.
pub open spec fn block_made_for(
    block: Block,
    block_type: BlockType,
    x: int,
    y: int,
    textures: BlockTextures,
) -> bool {
    block.block_type == block_type && sprite_made_for(block.sprite, block_type, x, y, textures)
}

/// Whether the `i`th of the first `n` blocks of a prefab lands in `cell` when
/// the prefab is moved by `offset`.
pub open spec fn lands_in(
    blocks: Seq<(BlockType, (i32, i32))>,
    offset: (i32, i32),
    n: int,
    i: int,
    cell: (int, int),
) -> bool {
    &&& 0 <= i < n <= blocks.len()
    &&& cell.0 == blocks[i].1.0 + offset.0
    &&& cell.1 == blocks[i].1.1 + offset.1
}

/// Whether `after` is `before` with the first `n` blocks of a prefab put in,
/// each moved by `offset`. The cells that no block lands in are as before. A
/// cell that blocks land in holds a block made for the last of them, drawn
/// with one of the textures that `textures` has for its type.
pub open spec fn prefab_added(
    before: Map<(int, int), Block>,
    after: Map<(int, int), Block>,
    blocks: Seq<(BlockType, (i32, i32))>,
    offset: (i32, i32),
    n: int,
    textures: BlockTextures,
) -> bool {
    &&& forall|cell: (int, int)|
        after.dom().contains(cell) <==> before.dom().contains(cell) || exists|i: int|
            lands_in(blocks, offset, n, i, cell)
    &&& forall|cell: (int, int)|
        before.dom().contains(cell) && !(exists|i: int| lands_in(blocks, offset, n, i, cell))
            ==> after[cell] == before[cell]
    &&& forall|cell: (int, int), i: int|
        lands_in(blocks, offset, n, i, cell) && (forall|j: int|
            i < j ==> !lands_in(blocks, offset, n, j, cell)) ==> block_made_for(
            after[cell],
            blocks[i].0,
            cell.0,
            cell.1,
            textures,
        )
}

/// The sprite of a block in the cell `(x, y)` that is drawn with `picked`.
pub fn sprite_with_texture(x: i32, y: i32, picked: TextureHandle) -> (placed: PlacedSprite)
    ensures
        sprite_shows(placed, x as int, y as int, picked),
{
    let pixel_x: i64 = (x as i64) * BLOCK_SIZE;
    let pixel_y: i64 = (y as i64) * BLOCK_SIZE;
    PlacedSprite { sprite: Sprite::new(picked), x: pixel_x, y: pixel_y }
}

/// The sprite of a block of type `block_type` in the cell `(x, y)`, drawn
/// with a texture picked at random from those that `textures` has for the
/// type. There must be one to pick.
pub fn sprite_for_block(block_type: &BlockType, x: i32, y: i32, textures: &BlockTextures) -> (placed:
    PlacedSprite)
    requires
        textures.of(*block_type).len() > 0,
    ensures
        sprite_made_for(placed, *block_type, x as int, y as int, *textures),
{
    let picked = choose_texture(textures.get(block_type)).unwrap();
    sprite_with_texture(x, y, picked)
}

} // verus!
