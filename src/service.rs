//! The render cache and the painter, owned together by one caller.
use crate::bitmap::BitmapView;
use crate::manager::SvgManager;
use crate::node_server::ProcessState;
use crate::painter::Painter;
use vstd::prelude::*;

verus! {

/// A render cache and a painter backed by a converter executable.
pub struct Svgear {
    pub manager: SvgManager,
    pub painter: Painter,
}

impl Svgear {
    /// An empty cache and a painter whose converter runs the executable at
    /// `exe_path`.
    pub fn new(exe_path: String) -> (r: Svgear)
        ensures
            r.manager.wf(),
            r.manager@.svgs == Map::<Seq<char>, Seq<char>>::empty(),
            r.manager@.bitmaps == Map::<Seq<char>, BitmapView>::empty(),
            r.painter.server() matches Some(s) && s.script_path() == exe_path && s.process()
                == ProcessState::NotStarted && s.phase() is Idle,
    {
        Svgear { manager: SvgManager::new(), painter: Painter::with_node_server(exe_path) }
    }
}

} // verus!
