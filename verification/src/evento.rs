//! The events of a registry and where they go.

use vstd::prelude::*;

verus! {

/// A change to a registry, with the identifier of the task it changed.
#[derive(Clone, Copy, Debug, PartialEq, Eq, Structural)]
pub enum Event {
    TarefaCriada(u64),
    TarefaAtualizada(u64),
    TarefaRemovida(u64),
}

/// What a registry needs from its host: a place to hand its events to.
pub trait Config {
    /// The events handed over so far, oldest first.
    spec fn eventos(&self) -> Seq<Event>;

    /// Takes one event. It comes after all earlier ones.
    fn deposit_event(&mut self, evento: Event)
        ensures
            final(self).eventos() == old(self).eventos().push(evento),
    ;
}

/// A host that keeps the events in memory.
pub struct Diario {
    eventos: Vec<Event>,
}

impl Diario {
    /// A log without events.
    pub fn new() -> (d: Diario)
        ensures
            d.eventos() == Seq::<Event>::empty(),
    {
        Diario { eventos: Vec::new() }
    }

    /// The events received, oldest first.
    pub fn registrados(&self) -> (r: &Vec<Event>)
        ensures
            r@ == self.eventos(),
    {
        &self.eventos
    }
}

impl Config for Diario {
    closed spec fn eventos(&self) -> Seq<Event> {
        self.eventos@
    }

    fn deposit_event(&mut self, evento: Event) {
        self.eventos.push(evento);
    }
}

} // verus!
