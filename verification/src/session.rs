//! The session state threaded across turns.
//!
//! The state owns the source map, the pending diagnostics, the table of
//! interactive blocks, and the current stage settings. The source map and
//! the block table are append-only: later input may refer to bindings made
//! by an earlier block, so no entry is ever removed within a session. Only
//! the pending diagnostics are cleared, once at the start of each turn that
//! runs the pipeline.

use vstd::prelude::*;
use crate::stage::{default_settings, Settings, StageKind};

verus! {

/// One pending diagnostic report from a stage run.
pub struct Diagnostic {
    /// The rendered message.
    pub message: String,
}

impl View for Diagnostic {
    type V = Seq<char>;

    open spec fn view(&self) -> Seq<char> {
        self.message@
    }
}

impl Diagnostic {
    /// Wrap a rendered message as a pending diagnostic.
    pub fn new(message: String) -> (d: Diagnostic)
        ensures
            d@ == message@,
    {
        Diagnostic { message }
    }
}

impl Clone for Diagnostic {
    fn clone(&self) -> (d: Self)
        ensures
            d@ == self@,
    {
        Diagnostic { message: self.message.clone() }
    }
}

/// One interactive block: a registered source fragment together with the
/// artifacts the pipeline's stages have committed for it so far.
pub struct Block {
    /// Where the block's text sits in the session's source map.
    pub source_id: usize,
    /// The parse stage's artifact: a rendering of the parsed tree.
    pub tree: Option<String>,
    /// The desugar stage's artifact: the lowered tree.
    pub desugared: Option<String>,
    /// The analysis stage's artifact: the inferred type.
    pub ty: Option<String>,
    /// The evaluated value, present only when evaluation was enabled.
    pub value: Option<String>,
}

/// The mathematical image of an interactive block.
#[verifier::ext_equal]
pub struct BlockView {
    pub source_id: int,
    pub tree: Option<Seq<char>>,
    pub desugared: Option<Seq<char>>,
    pub ty: Option<Seq<char>>,
    pub value: Option<Seq<char>>,
}

/// The image of an optional artifact.
pub open spec fn opt_view(o: Option<String>) -> Option<Seq<char>> {
    match o {
        Some(t) => Some(t@),
        None => None,
    }
}

impl View for Block {
    type V = BlockView;

    open spec fn view(&self) -> BlockView {
        BlockView {
            source_id: self.source_id as int,
            tree: opt_view(self.tree),
            desugared: opt_view(self.desugared),
            ty: opt_view(self.ty),
            value: opt_view(self.value),
        }
    }
}

/// A block that was just registered: its text is in the source map under
/// `source_id`, and no stage has committed an artifact yet.
pub open spec fn fresh_block(source_id: int) -> BlockView {
    BlockView { source_id, tree: None, desugared: None, ty: None, value: None }
}

/// The mathematical image of the session state.
#[verifier::ext_equal]
pub struct SessionView {
    pub source_map: Seq<Seq<char>>,
    pub diagnostics: Seq<Seq<char>>,
    pub blocks: Seq<BlockView>,
    pub settings: Settings,
}

impl SessionView {
    /// Every block's text is in the source map.
    pub open spec fn wf(&self) -> bool {
        forall|i: int|
            0 <= i < self.blocks.len() ==> (#[trigger] self.blocks[i]).source_id
                < self.source_map.len()
    }
}

/// The single long-lived state of an interactive session, owned by the loop
/// and handed to the dispatch of one turn at a time.
pub struct SessionState {
    /// Append-only registry of registered source text, indexed by source id.
    pub source_map: Vec<String>,
    /// Diagnostics pending from the most recent pipeline run.
    pub diagnostics: Vec<Diagnostic>,
    /// Append-only table of interactive blocks, indexed by block id.
    pub blocks: Vec<Block>,
    /// The current stage target and display flags.
    pub settings: Settings,
}

impl View for SessionState {
    type V = SessionView;

    open spec fn view(&self) -> SessionView {
        SessionView {
            source_map: self.source_map.deep_view(),
            diagnostics: self.diagnostics@.map_values(|d: Diagnostic| d@),
            blocks: self.blocks@.map_values(|b: Block| b@),
            settings: self.settings,
        }
    }
}

impl SessionState {
    pub open spec fn wf(&self) -> bool {
        self@.wf()
    }

    /// A fresh session: empty source map, no diagnostics, no blocks, and
    /// the default settings.
    pub fn new() -> (s: SessionState)
        ensures
            s.wf(),
            s@.source_map =~= Seq::<Seq<char>>::empty(),
            s@.diagnostics =~= Seq::<Seq<char>>::empty(),
            s@.blocks =~= Seq::<BlockView>::empty(),
            s@.settings == default_settings(),
    {
        SessionState {
            source_map: Vec::new(),
            diagnostics: Vec::new(),
            blocks: Vec::new(),
            settings: Settings { stage: StageKind::Analysis, dump_tree: false, eval: true },
        }
    }

    /// Register `text` as a new interactive block and return its id — the
    /// handle the pipeline driver reports results back under. Ids increase
    /// monotonically; nothing already registered is touched.
    pub fn register_block(&mut self, text: String) -> (id: usize)
        requires
            old(self).wf(),
        ensures
            final(self).wf(),
            id == old(self)@.blocks.len(),
            final(self)@.source_map =~= old(self)@.source_map.push(text@),
            final(self)@.blocks =~= old(self)@.blocks.push(
                fresh_block(old(self)@.source_map.len() as int),
            ),
            final(self)@.diagnostics =~= old(self)@.diagnostics,
            final(self)@.settings == old(self)@.settings,
    {
        let sid = self.source_map.len();
        self.source_map.push(text);
        let id = self.blocks.len();
        self.blocks.push(
            Block { source_id: sid, tree: None, desugared: None, ty: None, value: None },
        );
        proof {
            assert(self@.source_map =~= old(self)@.source_map.push(text@));
            assert(self@.blocks =~= old(self)@.blocks.push(
                fresh_block(old(self)@.source_map.len() as int),
            ));
            assert(self@.diagnostics =~= old(self)@.diagnostics);
            assert forall|i: int| 0 <= i < self@.blocks.len() implies (
            #[trigger] self@.blocks[i]).source_id < self@.source_map.len() by {
                if i < old(self)@.blocks.len() {
                    assert(self@.blocks[i] == old(self)@.blocks[i]);
                }
            }
        }
        id
    }

    /// Empty the pending diagnostics. Called exactly once per turn that
    /// runs the pipeline, before any stage, so a prior turn's reports are
    /// never shown twice. Blocks and source map are left untouched.
    pub fn clear_diagnostics(&mut self)
        requires
            old(self).wf(),
        ensures
            final(self).wf(),
            final(self)@.diagnostics =~= Seq::<Seq<char>>::empty(),
            final(self)@.source_map =~= old(self)@.source_map,
            final(self)@.blocks =~= old(self)@.blocks,
            final(self)@.settings == old(self)@.settings,
    {
        self.diagnostics.clear();
    }

    /// The registered text of block `id`.
    pub fn block_source(&self, id: usize) -> (text: &String)
        requires
            self.wf(),
            id < self@.blocks.len(),
        ensures
            text@ == self@.source_map[self@.blocks[id as int].source_id],
    {
        let sid = self.blocks[id].source_id;
        &self.source_map[sid]
    }

    /// How many interactive blocks this session has registered.
    pub fn block_count(&self) -> (n: usize)
        ensures
            n == self@.blocks.len(),
    {
        self.blocks.len()
    }
}

} // verus!
