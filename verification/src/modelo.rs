//! The registry as a mathematical value, and what each operation does to it.

use crate::evento::Event;
use crate::tarefa::{erro_dos_campos, DadosTarefa, Error, Regras};
use crate::texto::aparado;
use vstd::prelude::*;

verus! {

/// A stored task: its identifier, its fields and whether it is done.
#[verifier::ext_equal]
pub struct DadosRegistro {
    pub id: u64,
    pub tarefa: DadosTarefa,
    pub concluida: bool,
}

/// A registry: its rules, its records in ascending order of identifier, the
/// identifier that the next task gets, and the events it has emitted.
#[verifier::ext_equal]
pub struct Estado {
    pub regras: Regras,
    pub registros: Seq<DadosRegistro>,
    pub proximo_id: u64,
    pub eventos: Seq<Event>,
}

/// A change that was asked of a registry.
pub enum Operacao {
    Criar(DadosTarefa),
    Atualizar(u64, DadosTarefa),
    Concluir(u64),
    Remover(u64),
}

impl Estado {
    /// The registry without tasks, for a host that holds `eventos` already.
    pub open spec fn vazio(regras: Regras, eventos: Seq<Event>) -> Estado {
        Estado { regras, registros: Seq::empty(), proximo_id: 0, eventos }
    }

    /// The registry that holds `registros`, as a snapshot gave them.
    pub open spec fn restaurado(
        regras: Regras,
        registros: Seq<DadosRegistro>,
        proximo_id: u64,
        eventos: Seq<Event>,
    ) -> Estado {
        Estado { regras, registros, proximo_id, eventos }
    }

    /// Whether a task has the identifier `id`.
    pub open spec fn contem(self, id: u64) -> bool {
        exists|i: int| 0 <= i < self.registros.len() && (#[trigger] self.registros[i]).id == id
    }

    /// The position of the task with the identifier `id`.
    pub open spec fn indice(self, id: u64) -> int {
        choose|i: int| 0 <= i < self.registros.len() && (#[trigger] self.registros[i]).id == id
    }

    /// The task with the identifier `id`.
    pub open spec fn registro(self, id: u64) -> DadosRegistro {
        self.registros[self.indice(id)]
    }

    /// Whether a task has the name `nome`.
    pub open spec fn nome_em_uso(self, nome: Seq<char>) -> bool {
        exists|i: int|
            0 <= i < self.registros.len() && (#[trigger] self.registros[i]).tarefa.nome == nome
    }

    /// Whether a task other than `id` has the name `nome`.
    pub open spec fn nome_em_outra(self, nome: Seq<char>, id: u64) -> bool {
        exists|i: int|
            0 <= i < self.registros.len() && (#[trigger] self.registros[i]).id != id
                && self.registros[i].tarefa.nome == nome
    }

    /// The identifiers ascend strictly and lie below `proximo_id`: no two
    /// tasks share one, and none that was given out is given out again.
    pub open spec fn ordenado(self) -> bool {
        &&& forall|i: int, j: int|
            0 <= i < j < self.registros.len() ==> (#[trigger] self.registros[i]).id
                < (#[trigger] self.registros[j]).id
        &&& forall|i: int|
            0 <= i < self.registros.len() ==> (#[trigger] self.registros[i]).id < self.proximo_id
    }

    /// What always holds of a registry: the identifiers are in order, every
    /// record meets the rules and, where names are unique, no two tasks have
    /// the same name.
    pub open spec fn valido(self) -> bool {
        &&& self.ordenado()
        &&& forall|i: int|
            0 <= i < self.registros.len() ==> (#[trigger] self.registros[i]).tarefa.valida(
                self.regras,
            )
        &&& self.regras.nome_unico ==> forall|i: int, j: int|
            0 <= i < j < self.registros.len() ==> (#[trigger] self.registros[i]).tarefa.nome != (
            #[trigger] self.registros[j]).tarefa.nome
    }

    /// Why a task with these raw fields cannot be created, if it cannot: a
    /// rule broken by the fields, then a name already taken, then no
    /// identifier left.
    pub open spec fn erro_ao_criar(
        self,
        nome: Seq<char>,
        descricao: Seq<char>,
        prazo: Seq<char>,
        duracao: u32,
    ) -> Option<Error> {
        match erro_dos_campos(self.regras, nome, descricao, prazo, duracao) {
            Some(e) => Some(e),
            None => if self.regras.nome_unico && self.nome_em_uso(aparado(nome)) {
                Some(Error::TarefaJaExiste)
            } else if self.proximo_id == u64::MAX {
                Some(Error::EstouroDeId)
            } else {
                None
            },
        }
    }

    /// The registry after the task `d` was created: it has the identifier
    /// `self.proximo_id`, comes last and is not done.
    pub open spec fn criar(self, d: DadosTarefa) -> Estado {
        Estado {
            regras: self.regras,
            registros: self.registros.push(
                DadosRegistro { id: self.proximo_id, tarefa: d, concluida: false },
            ),
            proximo_id: (self.proximo_id + 1) as u64,
            eventos: self.eventos.push(Event::TarefaCriada(self.proximo_id)),
        }
    }

    /// Why the task `id` cannot get these raw fields, if it cannot: no such
    /// task, then a rule broken by the fields, then a name that another task
    /// has.
    pub open spec fn erro_ao_atualizar(
        self,
        id: u64,
        nome: Seq<char>,
        descricao: Seq<char>,
        prazo: Seq<char>,
        duracao: u32,
    ) -> Option<Error> {
        if !self.contem(id) {
            Some(Error::TarefaNaoEncontrada)
        } else {
            match erro_dos_campos(self.regras, nome, descricao, prazo, duracao) {
                Some(e) => Some(e),
                None => if self.regras.nome_unico && self.nome_em_outra(aparado(nome), id) {
                    Some(Error::TarefaJaExiste)
                } else {
                    None
                },
            }
        }
    }

    /// The registry after the fields of the task `id` were replaced by `d`.
    /// Whether the task is done stays as it was.
    pub open spec fn atualizar(self, id: u64, d: DadosTarefa) -> Estado {
        Estado {
            regras: self.regras,
            registros: self.registros.update(
                self.indice(id),
                DadosRegistro { id, tarefa: d, concluida: self.registro(id).concluida },
            ),
            proximo_id: self.proximo_id,
            eventos: self.eventos.push(Event::TarefaAtualizada(id)),
        }
    }

    /// The registry after the task `id` was marked as done. Where it was done
    /// already nothing changes and no event is emitted.
    pub open spec fn concluir(self, id: u64) -> Estado {
        if self.registro(id).concluida {
            self
        } else {
            Estado {
                regras: self.regras,
                registros: self.registros.update(
                    self.indice(id),
                    DadosRegistro { id, tarefa: self.registro(id).tarefa, concluida: true },
                ),
                proximo_id: self.proximo_id,
                eventos: self.eventos.push(Event::TarefaAtualizada(id)),
            }
        }
    }

    /// The registry after the task `id` was removed.
    pub open spec fn remover(self, id: u64) -> Estado {
        Estado {
            regras: self.regras,
            registros: self.registros.remove(self.indice(id)),
            proximo_id: self.proximo_id,
            eventos: self.eventos.push(Event::TarefaRemovida(id)),
        }
    }

    /// The registry after `op`. An operation that cannot be carried out (no
    /// identifier left, no such task) leaves the registry as it is.
    pub open spec fn aplicar(self, op: Operacao) -> Estado {
        match op {
            Operacao::Criar(d) => if self.proximo_id < u64::MAX {
                self.criar(d)
            } else {
                self
            },
            Operacao::Atualizar(id, d) => if self.contem(id) {
                self.atualizar(id, d)
            } else {
                self
            },
            Operacao::Concluir(id) => if self.contem(id) {
                self.concluir(id)
            } else {
                self
            },
            Operacao::Remover(id) => if self.contem(id) {
                self.remover(id)
            } else {
                self
            },
        }
    }

    /// The registry after the operations `ops`, first to last.
    pub open spec fn aplicar_todas(self, ops: Seq<Operacao>) -> Estado
        decreases ops.len(),
    {
        if ops.len() == 0 {
            self
        } else {
            self.aplicar(ops.first()).aplicar_todas(ops.drop_first())
        }
    }

    /// In an ordered registry a task is found at one position only.
    pub proof fn lema_indice(self, id: u64, k: int)
        requires
            self.ordenado(),
            0 <= k < self.registros.len(),
            self.registros[k].id == id,
        ensures
            self.contem(id),
            self.indice(id) == k,
            self.registro(id) == self.registros[k],
    {
        let i = self.indice(id);
        if i < k {
            assert(self.registros[i].id < self.registros[k].id);
        } else if k < i {
            assert(self.registros[k].id < self.registros[i].id);
        }
    }

    /// Every operation keeps the identifiers in order, never lowers
    /// `proximo_id`, and brings in no identifier below the old `proximo_id`
    /// that was not there before.
    pub proof fn lema_aplicar(self, op: Operacao)
        requires
            self.ordenado(),
        ensures
            self.aplicar(op).ordenado(),
            self.aplicar(op).regras == self.regras,
            self.aplicar(op).proximo_id >= self.proximo_id,
            forall|id: u64|
                id < self.proximo_id && !self.contem(id) ==> !(#[trigger] self.aplicar(op).contem(
                    id,
                )),
    {
        let depois = self.aplicar(op);
        match op {
            Operacao::Criar(d) => {},
            Operacao::Atualizar(id, d) => {
                if self.contem(id) {
                    let k = self.indice(id);
                    assert forall|i: int| 0 <= i < depois.registros.len() implies (
                    #[trigger] depois.registros[i]).id == self.registros[i].id by {}
                }
            },
            Operacao::Concluir(id) => {
                if self.contem(id) {
                    let k = self.indice(id);
                    assert forall|i: int| 0 <= i < depois.registros.len() implies (
                    #[trigger] depois.registros[i]).id == self.registros[i].id by {}
                }
            },
            Operacao::Remover(id) => {
                if self.contem(id) {
                    let k = self.indice(id);
                    assert forall|i: int| 0 <= i < depois.registros.len() implies (
                    #[trigger] depois.registros[i]) == self.registros[if i < k {
                        i
                    } else {
                        i + 1
                    }] by {}
                }
            },
        }
        assert forall|id: u64| id < self.proximo_id && !self.contem(id) implies !(
        #[trigger] depois.contem(id)) by {
            if depois.contem(id) {
                let i = depois.indice(id);
                match op {
                    Operacao::Criar(d) => {
                        if i < self.registros.len() {
                            assert(self.registros[i].id == id);
                        }
                    },
                    Operacao::Atualizar(x, d) => {
                        assert(self.registros[i].id == id);
                    },
                    Operacao::Concluir(x) => {
                        assert(self.registros[i].id == id);
                    },
                    Operacao::Remover(x) => {
                        if self.contem(x) {
                            let k = self.indice(x);
                            assert(self.registros[if i < k {
                                i
                            } else {
                                i + 1
                            }].id == id);
                        } else {
                            assert(self.registros[i].id == id);
                        }
                    },
                }
            }
        }
    }

    /// What `lema_aplicar` says of one operation holds of any number.
    pub proof fn lema_aplicar_todas(self, ops: Seq<Operacao>)
        requires
            self.ordenado(),
        ensures
            self.aplicar_todas(ops).ordenado(),
            self.aplicar_todas(ops).regras == self.regras,
            self.aplicar_todas(ops).proximo_id >= self.proximo_id,
            forall|id: u64|
                id < self.proximo_id && !self.contem(id) ==> !(#[trigger] self.aplicar_todas(
                    ops,
                ).contem(id)),
        decreases ops.len(),
    {
        if ops.len() > 0 {
            let e = self.aplicar(ops.first());
            self.lema_aplicar(ops.first());
            e.lema_aplicar_todas(ops.drop_first());
            assert forall|id: u64| id < self.proximo_id && !self.contem(id) implies !(
            #[trigger] self.aplicar_todas(ops).contem(id)) by {
                assert(!e.contem(id));
            }
        }
    }

    /// Marking a task as done twice leaves the registry, its events
    /// included, as marking it once does.
    pub proof fn lei_concluir_idempotente(self, id: u64)
        requires
            self.ordenado(),
            self.contem(id),
        ensures
            self.concluir(id).contem(id),
            self.concluir(id).registro(id).concluida,
            self.concluir(id).concluir(id) == self.concluir(id),
    {
        let k = self.indice(id);
        let e = self.concluir(id);
        self.lema_aplicar(Operacao::Concluir(id));
        assert(e.registros[k].id == id);
        e.lema_indice(id, k);
    }

    /// A task that is created gets an identifier that no task has, and
    /// whatever is done afterwards, a task created later gets another one.
    pub proof fn lei_ids_distintos(self, d: DadosTarefa, ops: Seq<Operacao>)
        requires
            self.ordenado(),
            self.proximo_id < u64::MAX,
        ensures
            !self.contem(self.proximo_id),
            self.criar(d).contem(self.proximo_id),
            self.criar(d).aplicar_todas(ops).proximo_id > self.proximo_id,
    {
        let e = self.criar(d);
        if self.contem(self.proximo_id) {
            let i = self.indice(self.proximo_id);
            assert(self.registros[i].id < self.proximo_id);
        }
        assert(e.registros[self.registros.len() as int].id == self.proximo_id);
        self.lema_aplicar(Operacao::Criar(d));
        e.lema_aplicar_todas(ops);
    }

    /// Once a task is removed its identifier names no task, and whatever is
    /// done afterwards it names none again: no later task gets it.
    pub proof fn lei_removido_nao_volta(self, id: u64, ops: Seq<Operacao>)
        requires
            self.ordenado(),
            self.contem(id),
        ensures
            !self.remover(id).contem(id),
            !self.remover(id).aplicar_todas(ops).contem(id),
            self.remover(id).aplicar_todas(ops).proximo_id > id,
    {
        let k = self.indice(id);
        let e = self.remover(id);
        self.lema_aplicar(Operacao::Remover(id));
        assert(self.registros[k].id < self.proximo_id);
        if e.contem(id) {
            let i = e.indice(id);
            let j = if i < k {
                i
            } else {
                i + 1
            };
            assert(e.registros[i] == self.registros[j]);
            if j < k {
                assert(self.registros[j].id < self.registros[k].id);
            } else {
                assert(self.registros[k].id < self.registros[j].id);
            }
        }
        e.lema_aplicar_todas(ops);
    }

    /// Fields that break a rule are refused by the registry as they are by
    /// `construir`, with the same error, whatever the registry holds.
    pub proof fn lei_criar_recusa_campos_invalidos(
        self,
        nome: Seq<char>,
        descricao: Seq<char>,
        prazo: Seq<char>,
        duracao: u32,
    )
        ensures
            erro_dos_campos(self.regras, nome, descricao, prazo, duracao) is Some
                ==> self.erro_ao_criar(nome, descricao, prazo, duracao) == erro_dos_campos(
                self.regras,
                nome,
                descricao,
                prazo,
                duracao,
            ),
    {
    }

    /// What a valid registry holds can always be restored, under any host,
    /// and restoring it gives the registry back: the same records in the
    /// same order, and the same next identifier.
    pub proof fn lei_ida_e_volta(self, eventos: Seq<Event>)
        requires
            self.valido(),
        ensures
            Estado::restaurado(self.regras, self.registros, self.proximo_id, eventos).valido(),
            Estado::restaurado(self.regras, self.registros, self.proximo_id, self.eventos)
                == self,
    {
    }
}

} // verus!
