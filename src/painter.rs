//! What a paint request carries, and the painter that routes it to the converter.
use crate::error::SvgearError;
use crate::node_server::{
    paint_effect, resume_effect, ConverterAction, ConverterEvent, NodeServer, ProcessState,
};
use vstd::prelude::*;

verus! {

/// The kind of markup to paint.
#[derive(Debug, Clone, Copy, PartialEq, Eq, Structural)]
pub enum PaintType {
    /// TeX typeset inline.
    InlineTeX,
    /// TeX typeset as a displayed equation.
    Equation,
    /// A Mermaid diagram.
    Mermaid,
}

/// A paint request: the kind of markup and its text.
#[derive(Debug, Clone)]
pub struct PaintParams {
    pub ty: PaintType,
    pub content: String,
}

/// Paints markup through a converter session, when one is configured.
pub struct Painter {
    node_server: Option<NodeServer>,
}

impl Painter {
    /// The converter session, if one is configured.
    pub closed spec fn server(&self) -> Option<NodeServer> {
        self.node_server
    }

    /// A painter without a converter.
    pub fn new() -> (r: Painter)
        ensures
            r.server() is None,
    {
        Painter { node_server: None }
    }

    /// A painter whose converter runs the executable at `exe_path`.
    pub fn with_node_server(exe_path: String) -> (r: Painter)
        ensures
            r.server() matches Some(s) && s.script_path() == exe_path && s.process()
                == ProcessState::NotStarted && s.phase() is Idle,
    {
        let mut painter = Self::new();
        painter.node_server = Some(NodeServer::new(exe_path));
        painter
    }

    /// Replaces the converter session.
    pub fn set_node_server(&mut self, server: NodeServer)
        ensures
            final(self).server() == Some(server),
    {
        self.node_server = Some(server);
    }

    /// Starts painting: without a converter the request fails at once;
    /// otherwise the converter session takes it (see `NodeServer::paint`).
    pub fn paint(&mut self, params: PaintParams) -> (a: ConverterAction)
        ensures
            match old(self).server() {
                None => a == ConverterAction::Finish(Err(SvgearError::NoConverter))
                    && *final(self) == *old(self),
                Some(s) => final(self).server() matches Some(t) && paint_effect(s, params, a, t),
            },
    {
        match &mut self.node_server {
            None => ConverterAction::Finish(Err(SvgearError::NoConverter)),
            Some(s) => s.paint(params),
        }
    }

    /// Whether the converter's helper process is running.
    pub fn converter_running(&self) -> (r: bool)
        ensures
            r == (self.server() matches Some(s) && s.process() == ProcessState::Running),
    {
        match &self.node_server {
            None => false,
            Some(s) => s.is_running(),
        }
    }

    /// Hands the outcome of the last action to the converter session.
    pub fn resume(&mut self, event: ConverterEvent) -> (a: ConverterAction)
        ensures
            match old(self).server() {
                None => a == ConverterAction::Refused && *final(self) == *old(self),
                Some(s) => final(self).server() matches Some(t) && resume_effect(s, event, a, t),
            },
    {
        match &mut self.node_server {
            None => ConverterAction::Refused,
            Some(s) => s.resume(event),
        }
    }
}

} // verus!
