//! A registry of tasks: validated records, numeric identities that are never
//! reused, and one event for every change.
//!
//! A task is built from raw fields by [`construir`], which trims its texts
//! and checks them against the [`Regras`] in force. A [`Pallet`] keeps tasks
//! under identifiers that it gives out in ascending order, and hands an
//! [`Event`] to its host, a [`Config`], for every change it makes. What each
//! operation does is stated over [`Estado`], the registry as a mathematical
//! value.

pub mod data;
pub mod evento;
pub mod modelo;
pub mod pallet;
pub mod tarefa;
pub mod texto;

pub use evento::{Config, Diario, Event};
pub use modelo::{DadosRegistro, Estado, Operacao};
pub use pallet::{Pallet, Registro};
pub use tarefa::{
    construir, criar_tarefa, validar, Campo, DadosTarefa, Error, Prioridade, Regras, Tarefa,
    MAX_DESCRICAO_LEN, MAX_NOME_LEN, MAX_PRAZO_LEN,
};
pub use texto::{aparar, sem_espaco_nas_pontas};
