//! A physical link and the session's wrapper around it.

use crate::action::TransportAction;
use std::time::Duration;
use vstd::prelude::*;

verus! {

/// One physical point-to-point connection, known by its identity.
#[derive(Clone, Copy, Debug, PartialEq, Eq, Structural, Hash)]
pub struct LinkUnicast {
    pub id: u64,
}

/// The outbound queue of a link, as configured when its TX half was started.
#[derive(Clone, Copy, Debug, PartialEq, Eq)]
pub struct TransmissionPipeline {
    pub keep_alive: Duration,
    pub batch_size: u16,
    /// How many TX conduits the pipeline draws sequence numbers from.
    pub conduits: usize,
}

/// The inbound reader of a link, as configured when its RX half was started.
#[derive(Clone, Copy, Debug, PartialEq, Eq)]
pub struct LinkReader {
    pub lease: Duration,
}

/// Binds one physical link to a session. The two halves of the link are
/// started and stopped independently.
#[derive(Clone, Copy, Debug, PartialEq, Eq)]
pub struct TransportLinkUnicast {
    pub link: LinkUnicast,
    pub pipeline: Option<TransmissionPipeline>,
    pub reader: Option<LinkReader>,
}

impl TransportLinkUnicast {
    /// A wrapper with neither half started.
    pub fn new(link: LinkUnicast) -> (l: TransportLinkUnicast)
        ensures
            l == (TransportLinkUnicast { link, pipeline: None, reader: None }),
    {
        TransportLinkUnicast { link, pipeline: None, reader: None }
    }

    pub fn get_link(&self) -> (l: LinkUnicast)
        ensures
            l == self.link,
    {
        self.link
    }

    pub fn get_pipeline(&self) -> (p: Option<TransmissionPipeline>)
        ensures
            p == self.pipeline,
    {
        self.pipeline
    }

    pub fn get_reader(&self) -> (r: Option<LinkReader>)
        ensures
            r == self.reader,
    {
        self.reader
    }

    /// The wrapper with its TX half started: a pipeline with the given
    /// configuration takes the place of any earlier one.
    pub open spec fn with_tx(self, keep_alive: Duration, batch_size: u16, conduits: usize) -> Self {
        TransportLinkUnicast {
            pipeline: Some(TransmissionPipeline { keep_alive, batch_size, conduits }),
            ..self
        }
    }

    /// The wrapper with its TX half stopped.
    pub open spec fn without_tx(self) -> Self {
        TransportLinkUnicast { pipeline: None, ..self }
    }

    /// The wrapper with its RX half started.
    pub open spec fn with_rx(self, lease: Duration) -> Self {
        TransportLinkUnicast { reader: Some(LinkReader { lease }), ..self }
    }

    /// The wrapper with its RX half stopped.
    pub open spec fn without_rx(self) -> Self {
        TransportLinkUnicast { reader: None, ..self }
    }

    /// What closing the wrapper asks for: the pipeline is stopped if there
    /// is one, then the reader if there is one, then the physical link is
    /// closed.
    pub open spec fn close_actions(self) -> Seq<TransportAction> {
        let stop_tx = if self.pipeline.is_some() {
            seq![TransportAction::StopTx { link: self.link }]
        } else {
            Seq::empty()
        };
        let stop_rx = if self.reader.is_some() {
            seq![TransportAction::StopRx { link: self.link }]
        } else {
            Seq::empty()
        };
        stop_tx + stop_rx + seq![TransportAction::CloseLink { link: self.link }]
    }

    pub fn start_tx(&mut self, keep_alive: Duration, batch_size: u16, conduits: usize)
        ensures
            *final(self) == old(self).with_tx(keep_alive, batch_size, conduits),
    {
        self.pipeline = Some(TransmissionPipeline { keep_alive, batch_size, conduits });
    }

    pub fn stop_tx(&mut self)
        ensures
            *final(self) == old(self).without_tx(),
    {
        self.pipeline = None;
    }

    pub fn start_rx(&mut self, lease: Duration)
        ensures
            *final(self) == old(self).with_rx(lease),
    {
        self.reader = Some(LinkReader { lease });
    }

    pub fn stop_rx(&mut self)
        ensures
            *final(self) == old(self).without_rx(),
    {
        self.reader = None;
    }

    /// Consumes the wrapper and appends to `actions` what closing it asks for.
    pub fn close(self, actions: &mut Vec<TransportAction>)
        ensures
            final(actions)@ == old(actions)@ + self.close_actions(),
    {
        if self.pipeline.is_some() {
            actions.push(TransportAction::StopTx { link: self.link });
        }
        if self.reader.is_some() {
            actions.push(TransportAction::StopRx { link: self.link });
        }
        actions.push(TransportAction::CloseLink { link: self.link });
    }
}

} // verus!
