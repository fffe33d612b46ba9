//! The registry: tasks kept under identifiers that are given out in
//! ascending order and never twice.

use crate::evento::{Config, Event};
use crate::modelo::{DadosRegistro, Estado};
use crate::tarefa::{construir, dados_dos_campos, Error, Prioridade, Regras, Tarefa};
use crate::texto::{aparado, aparar};
use vstd::prelude::*;

verus! {

/// A task as the registry keeps it.
#[derive(Debug, PartialEq, Eq)]
pub struct Registro {
    pub id: u64,
    pub tarefa: Tarefa,
    /// Whether the task is done.
    pub concluida: bool,
}

impl View for Registro {
    type V = DadosRegistro;

    open spec fn view(&self) -> DadosRegistro {
        DadosRegistro { id: self.id, tarefa: self.tarefa@, concluida: self.concluida }
    }
}

impl Clone for Registro {
    fn clone(&self) -> (r: Self)
        ensures
            r == *self,
    {
        Registro { id: self.id, tarefa: self.tarefa.clone(), concluida: self.concluida }
    }
}

/// The records of `v` as plain values, in the same order.
pub open spec fn dados_dos_registros(v: Seq<Registro>) -> Seq<DadosRegistro> {
    Seq::new(v.len(), |i: int| v[i]@)
}

/// The registry. `T` is the host that receives its events.
pub struct Pallet<T: Config> {
    registros: Vec<Registro>,
    proximo_id: u64,
    regras: Regras,
    host: T,
}

impl<T: Config> View for Pallet<T> {
    type V = Estado;

    closed spec fn view(&self) -> Estado {
        Estado {
            regras: self.regras,
            registros: dados_dos_registros(self.registros@),
            proximo_id: self.proximo_id,
            eventos: self.host.eventos(),
        }
    }
}

impl<T: Config> Pallet<T> {
    /// A registry without tasks, under the rules `regras`. The first task
    /// gets the identifier 0.
    pub fn new(host: T, regras: Regras) -> (p: Self)
        ensures
            p@ == Estado::vazio(regras, host.eventos()),
            p@.valido(),
    {
        Pallet { registros: Vec::new(), proximo_id: 0, regras, host }
    }

    /// Where the task `id` is kept, by binary search.
    fn posicao(&self, id: u64) -> (r: Option<usize>)
        requires
            self@.ordenado(),
        ensures
            match r {
                Some(k) => {
                    &&& k < self.registros@.len()
                    &&& self.registros@[k as int].id == id
                    &&& self@.contem(id)
                    &&& self@.indice(id) == k
                },
                None => !self@.contem(id),
            },
    {
        let mut lo: usize = 0;
        let mut hi: usize = self.registros.len();
        while lo < hi
            invariant
                lo <= hi <= self.registros@.len(),
                self@.ordenado(),
                forall|i: int| 0 <= i < lo ==> (#[trigger] self@.registros[i]).id < id,
                forall|i: int|
                    hi <= i < self.registros@.len() ==> (#[trigger] self@.registros[i]).id > id,
            decreases hi - lo,
        {
            let meio: usize = lo + (hi - lo) / 2;
            let visto: u64 = self.registros[meio].id;
            assert(self@.registros[meio as int].id == visto);
            if visto == id {
                proof {
                    self@.lema_indice(id, meio as int);
                }
                return Some(meio);
            } else if visto < id {
                assert forall|i: int| 0 <= i < meio + 1 implies (#[trigger] self@.registros[i]).id
                    < id by {
                    if i < meio {
                        assert(self@.registros[i].id < self@.registros[meio as int].id);
                    }
                }
                lo = meio + 1;
            } else {
                assert forall|i: int| meio <= i < self.registros@.len() implies (
                #[trigger] self@.registros[i]).id > id by {
                    if meio < i {
                        assert(self@.registros[meio as int].id < self@.registros[i].id);
                    }
                }
                hi = meio;
            }
        }
        None
    }

    /// Whether a task has the name `nome`; with `exceto`, whether a task
    /// other than that one has it.
    fn nome_usado(&self, nome: &String, exceto: Option<u64>) -> (r: bool)
        ensures
            r == match exceto {
                Some(id) => self@.nome_em_outra(nome@, id),
                None => self@.nome_em_uso(nome@),
            },
    {
        let mut i: usize = 0;
        while i < self.registros.len()
            invariant
                i <= self.registros@.len(),
                forall|j: int|
                    0 <= j < i ==> {
                        let r = #[trigger] self@.registros[j];
                        r.tarefa.nome != nome@ || exceto == Some(r.id)
                    },
            decreases self.registros@.len() - i,
        {
            let outro = match exceto {
                Some(id) => self.registros[i].id != id,
                None => true,
            };
            if outro && self.registros[i].tarefa.nome == *nome {
                assert(self@.registros[i as int].tarefa.nome == nome@);
                return true;
            }
            i = i + 1;
        }
        false
    }

    /// Creates a task from raw fields. The fields are trimmed and checked as
    /// `construir` does; where names are unique the name must be free; an
    /// identifier must be left. The task gets the next identifier and is
    /// returned with it, and one event goes to the host. Where the call
    /// fails the registry is left as it was and the host gets nothing.
    pub fn criar_tarefa(
        &mut self,
        nome: &str,
        descricao: &str,
        prazo: &str,
        duracao: u32,
        prioridade: Prioridade,
    ) -> (r: Result<(u64, Tarefa), Error>)
        requires
            old(self)@.valido(),
        ensures
            final(self)@.valido(),
            match r {
                Ok((id, t)) => {
                    &&& old(self)@.erro_ao_criar(nome@, descricao@, prazo@, duracao) is None
                    &&& id == old(self)@.proximo_id
                    &&& t@ == dados_dos_campos(nome@, descricao@, prazo@, duracao, prioridade)
                    &&& final(self)@ == old(self)@.criar(t@)
                },
                Err(e) => {
                    &&& old(self)@.erro_ao_criar(nome@, descricao@, prazo@, duracao) == Some(e)
                    &&& final(self)@ == old(self)@
                },
            },
    {
        let t = match construir(&self.regras, nome, descricao, prazo, duracao, prioridade) {
            Ok(t) => t,
            Err(e) => {
                return Err(e);
            },
        };
        if self.regras.nome_unico && self.nome_usado(&t.nome, None) {
            return Err(Error::TarefaJaExiste);
        }
        if self.proximo_id == u64::MAX {
            return Err(Error::EstouroDeId);
        }
        let id = self.proximo_id;
        let copia = t.clone();
        self.registros.push(Registro { id, tarefa: t, concluida: false });
        self.proximo_id = id + 1;
        self.host.deposit_event(Event::TarefaCriada(id));
        proof {
            assert(self@.registros =~= old(self)@.criar(copia@).registros);
        }
        Ok((id, copia))
    }

    /// Replaces the fields of the task `id` by raw fields, which are trimmed
    /// and checked as a whole before anything changes. Whether the task is
    /// done stays as it was. One event goes to the host. Where the call
    /// fails the registry is left as it was and the host gets nothing.
    pub fn atualizar_tarefa(
        &mut self,
        id: u64,
        nome: &str,
        descricao: &str,
        prazo: &str,
        duracao: u32,
        prioridade: Prioridade,
    ) -> (r: Result<(), Error>)
        requires
            old(self)@.valido(),
        ensures
            final(self)@.valido(),
            match r {
                Ok(()) => {
                    &&& old(self)@.erro_ao_atualizar(id, nome@, descricao@, prazo@, duracao) is None
                    &&& final(self)@ == old(self)@.atualizar(
                        id,
                        dados_dos_campos(nome@, descricao@, prazo@, duracao, prioridade),
                    )
                },
                Err(e) => {
                    &&& old(self)@.erro_ao_atualizar(id, nome@, descricao@, prazo@, duracao)
                        == Some(e)
                    &&& final(self)@ == old(self)@
                },
            },
    {
        let k = match self.posicao(id) {
            Some(k) => k,
            None => {
                return Err(Error::TarefaNaoEncontrada);
            },
        };
        let t = match construir(&self.regras, nome, descricao, prazo, duracao, prioridade) {
            Ok(t) => t,
            Err(e) => {
                return Err(e);
            },
        };
        if self.regras.nome_unico && self.nome_usado(&t.nome, Some(id)) {
            return Err(Error::TarefaJaExiste);
        }
        let ghost d = t@;
        let concluida = self.registros[k].concluida;
        self.registros[k] = Registro { id, tarefa: t, concluida };
        self.host.deposit_event(Event::TarefaAtualizada(id));
        proof {
            assert(self@.registros =~= old(self)@.atualizar(id, d).registros);
            assert forall|i: int, j: int|
                self.regras.nome_unico && 0 <= i < j < self@.registros.len() implies (
            #[trigger] self@.registros[i]).tarefa.nome != (
            #[trigger] self@.registros[j]).tarefa.nome by {
                assert(old(self)@.registros[i].id < old(self)@.registros[j].id);
                if i == k {
                    assert(old(self)@.registros[j].tarefa.nome != d.nome);
                } else if j == k {
                    assert(old(self)@.registros[i].tarefa.nome != d.nome);
                }
            }
        }
        Ok(())
    }

    /// Marks the task `id` as done. On a task that is done already the call
    /// succeeds and changes nothing; otherwise one event goes to the host.
    pub fn marcar_concluida(&mut self, id: u64) -> (r: Result<(), Error>)
        requires
            old(self)@.valido(),
        ensures
            final(self)@.valido(),
            match r {
                Ok(()) => old(self)@.contem(id) && final(self)@ == old(self)@.concluir(id),
                Err(e) => {
                    &&& !old(self)@.contem(id)
                    &&& e == Error::TarefaNaoEncontrada
                    &&& final(self)@ == old(self)@
                },
            },
    {
        let k = match self.posicao(id) {
            Some(k) => k,
            None => {
                return Err(Error::TarefaNaoEncontrada);
            },
        };
        if !self.registros[k].concluida {
            self.registros[k].concluida = true;
            self.host.deposit_event(Event::TarefaAtualizada(id));
            proof {
                assert(self@.registros =~= old(self)@.concluir(id).registros);
            }
        }
        Ok(())
    }

    /// Removes the task `id`. Its identifier is not given out again. One
    /// event goes to the host.
    pub fn remover_tarefa(&mut self, id: u64) -> (r: Result<(), Error>)
        requires
            old(self)@.valido(),
        ensures
            final(self)@.valido(),
            match r {
                Ok(()) => old(self)@.contem(id) && final(self)@ == old(self)@.remover(id),
                Err(e) => {
                    &&& !old(self)@.contem(id)
                    &&& e == Error::TarefaNaoEncontrada
                    &&& final(self)@ == old(self)@
                },
            },
    {
        let k = match self.posicao(id) {
            Some(k) => k,
            None => {
                return Err(Error::TarefaNaoEncontrada);
            },
        };
        self.registros.remove(k);
        self.host.deposit_event(Event::TarefaRemovida(id));
        proof {
            assert(self@.registros =~= old(self)@.remover(id).registros);
            assert forall|i: int| 0 <= i < self@.registros.len() implies #[trigger] self@.registros[i]
                == old(self)@.registros[if i < k { i } else { i + 1 }] by {}
        }
        Ok(())
    }

    /// The task `id`.
    pub fn tarefas(&self, id: u64) -> (r: Result<&Registro, Error>)
        requires
            self@.valido(),
        ensures
            match r {
                Ok(reg) => self@.contem(id) && reg@ == self@.registro(id),
                Err(e) => !self@.contem(id) && e == Error::TarefaNaoEncontrada,
            },
    {
        match self.posicao(id) {
            Some(k) => Ok(&self.registros[k]),
            None => Err(Error::TarefaNaoEncontrada),
        }
    }

    /// The tasks as they are now, in ascending order of identifier, which is
    /// the order in which they were created.
    pub fn listar(&self) -> (r: Vec<Registro>)
        ensures
            dados_dos_registros(r@) == self@.registros,
    {
        let mut r: Vec<Registro> = Vec::new();
        let mut i: usize = 0;
        while i < self.registros.len()
            invariant
                i <= self.registros@.len(),
                r@.len() == i,
                forall|j: int| 0 <= j < i ==> (#[trigger] r@[j])@ == self@.registros[j],
            decreases self.registros@.len() - i,
        {
            r.push(self.registros[i].clone());
            i = i + 1;
        }
        assert(dados_dos_registros(r@) =~= self@.registros);
        r
    }

    /// The smallest identifier of a task whose name is `nome` once trimmed.
    /// Names identify a task only where the rules make them unique.
    pub fn id_por_nome(&self, nome: &str) -> (r: Option<u64>)
        requires
            self@.valido(),
        ensures
            match r {
                Some(id) => {
                    &&& self@.contem(id)
                    &&& self@.registro(id).tarefa.nome == aparado(nome@)
                    &&& forall|i: int|
                        0 <= i < self@.registros.len() && (
                        #[trigger] self@.registros[i]).tarefa.nome == aparado(nome@) ==> id
                            <= self@.registros[i].id
                },
                None => !self@.nome_em_uso(aparado(nome@)),
            },
    {
        let alvo: String = aparar(nome).to_owned();
        let mut i: usize = 0;
        while i < self.registros.len()
            invariant
                i <= self.registros@.len(),
                alvo@ == aparado(nome@),
                self@.valido(),
                forall|j: int| 0 <= j < i ==> (#[trigger] self@.registros[j]).tarefa.nome != alvo@,
            decreases self.registros@.len() - i,
        {
            if self.registros[i].tarefa.nome == alvo {
                let id = self.registros[i].id;
                proof {
                    self@.lema_indice(id, i as int);
                    assert forall|j: int|
                        0 <= j < self@.registros.len() && (
                        #[trigger] self@.registros[j]).tarefa.nome == alvo@ implies id
                        <= self@.registros[j].id by {
                        if i < j {
                            assert(self@.registros[i as int].id < self@.registros[j].id);
                        }
                    }
                }
                return Some(id);
            }
            i = i + 1;
        }
        None
    }

    /// How many tasks the registry holds.
    pub fn len(&self) -> (n: usize)
        ensures
            n == self@.registros.len(),
    {
        self.registros.len()
    }

    /// The identifier that the next task gets.
    pub fn proximo_id(&self) -> (id: u64)
        ensures
            id == self@.proximo_id,
    {
        self.proximo_id
    }

    /// The rules in force.
    pub fn regras(&self) -> (r: Regras)
        ensures
            r == self@.regras,
    {
        self.regras
    }

    /// The host, with the events it was given.
    pub fn host(&self) -> (h: &T)
        ensures
            h.eventos() == self@.eventos,
    {
        &self.host
    }

    /// Whether `registros` with `proximo_id` are what a valid registry under
    /// `regras` can hold: identifiers ascending and below `proximo_id`, every
    /// record valid as it stands, names distinct where they are unique.
    pub fn conferir_registros(regras: &Regras, registros: &Vec<Registro>, proximo_id: u64) -> (b:
        bool)
        ensures
            b == Estado::restaurado(
                *regras,
                dados_dos_registros(registros@),
                proximo_id,
                Seq::empty(),
            ).valido(),
    {
        let ghost e = Estado::restaurado(
            *regras,
            dados_dos_registros(registros@),
            proximo_id,
            Seq::empty(),
        );
        let n = registros.len();
        let mut j: usize = 0;
        while j < n
            invariant
                j <= n,
                n == registros@.len(),
                e == Estado::restaurado(
                    *regras,
                    dados_dos_registros(registros@),
                    proximo_id,
                    Seq::empty(),
                ),
                forall|a: int, b: int|
                    0 <= a < b < j ==> (#[trigger] e.registros[a]).id < (
                    #[trigger] e.registros[b]).id,
                forall|a: int| 0 <= a < j ==> (#[trigger] e.registros[a]).id < proximo_id,
                forall|a: int| 0 <= a < j ==> (#[trigger] e.registros[a]).tarefa.valida(*regras),
                regras.nome_unico ==> forall|a: int, b: int|
                    0 <= a < b < j ==> (#[trigger] e.registros[a]).tarefa.nome != (
                    #[trigger] e.registros[b]).tarefa.nome,
            decreases n - j,
        {
            let reg = &registros[j];
            assert(reg@ == e.registros[j as int]);
            if reg.id >= proximo_id {
                return false;
            }
            if j > 0 && registros[j - 1].id >= reg.id {
                assert(e.registros[j - 1].id >= e.registros[j as int].id);
                return false;
            }
            if !reg.tarefa.conferir(regras) {
                return false;
            }
            if regras.nome_unico {
                let mut i: usize = 0;
                while i < j
                    invariant
                        i <= j < n,
                        n == registros@.len(),
                        reg == registros@[j as int],
                        regras.nome_unico,
                        e == Estado::restaurado(
                            *regras,
                            dados_dos_registros(registros@),
                            proximo_id,
                            Seq::empty(),
                        ),
                        forall|a: int|
                            0 <= a < i ==> (#[trigger] e.registros[a]).tarefa.nome
                                != e.registros[j as int].tarefa.nome,
                    decreases j - i,
                {
                    if registros[i].tarefa.nome == reg.tarefa.nome {
                        assert(e.registros[i as int].tarefa.nome
                            == e.registros[j as int].tarefa.nome);
                        return false;
                    }
                    i = i + 1;
                }
            }
            assert forall|a: int, b: int| 0 <= a < b < j + 1 implies (#[trigger] e.registros[a]).id
                < (#[trigger] e.registros[b]).id by {
                if b == j && a < j - 1 {
                    assert(e.registros[a].id < e.registros[j - 1].id);
                }
            }
            j = j + 1;
        }
        true
    }

    /// Builds a registry from what a snapshot holds. Nothing is repaired:
    /// records that `conferir_registros` refuses give `RegistroInvalido`. No
    /// event is emitted.
    pub fn restaurar(host: T, regras: Regras, registros: Vec<Registro>, proximo_id: u64) -> (r:
        Result<Self, Error>)
        ensures
            match r {
                Ok(p) => {
                    &&& p@.valido()
                    &&& p@ == Estado::restaurado(
                        regras,
                        dados_dos_registros(registros@),
                        proximo_id,
                        host.eventos(),
                    )
                },
                Err(e) => {
                    &&& e == Error::RegistroInvalido
                    &&& !Estado::restaurado(
                        regras,
                        dados_dos_registros(registros@),
                        proximo_id,
                        host.eventos(),
                    ).valido()
                },
            },
    {
        if Self::conferir_registros(&regras, &registros, proximo_id) {
            Ok(Pallet { registros, proximo_id, regras, host })
        } else {
            Err(Error::RegistroInvalido)
        }
    }
}

} // verus!
