//! The task record and the rules a record has to meet.

use crate::data::{data_reconhecida, formato_prazo, reconhecer_data};
use crate::texto::{aparado, aparar, lema_aparado, sem_espaco_nas_pontas};
use vstd::prelude::*;
use vstd::utf8::encode_utf8;

verus! {

/// The longest name, in bytes of its UTF-8 encoding, where fields are bounded.
pub const MAX_NOME_LEN: u32 = 50;

/// The longest description, in bytes, where fields are bounded.
pub const MAX_DESCRICAO_LEN: u32 = 200;

/// The longest deadline, in bytes, where fields are bounded.
pub const MAX_PRAZO_LEN: u32 = 10;

/// How urgent a task is.
#[derive(Clone, Copy, Debug, PartialEq, Eq, Structural)]
pub enum Prioridade {
    Baixa,
    Media,
    Alta,
}

/// The text fields of a task.
#[derive(Clone, Copy, Debug, PartialEq, Eq, Structural)]
pub enum Campo {
    Nome,
    Descricao,
    Prazo,
}

/// Why an operation was refused.
#[derive(Clone, Copy, Debug, PartialEq, Eq, Structural)]
pub enum Error {
    /// The field holds nothing but white space.
    CampoVazio(Campo),
    /// The estimated duration is zero.
    DuracaoZero,
    /// The deadline is no calendar date written as year-month-day.
    DataInvalida,
    /// The field is longer than `limite` bytes.
    CampoLongo { campo: Campo, limite: u32 },
    /// Names are unique and another task has this name.
    TarefaJaExiste,
    /// No task has this identifier.
    TarefaNaoEncontrada,
    /// No identifier is left to give out.
    EstouroDeId,
    /// A snapshot holds a record that the rules refuse, or is out of order.
    RegistroInvalido,
}

/// Which of the optional rules are in force.
#[derive(Clone, Copy, Debug, PartialEq, Eq, Structural)]
pub struct Regras {
    /// The deadline has to be a calendar date.
    pub validar_data: bool,
    /// The text fields have a largest length.
    pub limitar_campos: bool,
    /// No two tasks of a registry have the same name.
    pub nome_unico: bool,
}

/// A task: what is to be done, until when, how long it takes and how much
/// it matters.
#[derive(Debug, PartialEq, Eq)]
pub struct Tarefa {
    pub nome: String,
    pub descricao: String,
    pub prazo: String,
    /// Estimated duration in hours.
    pub duracao: u32,
    pub prioridade: Prioridade,
}

impl Clone for Tarefa {
    fn clone(&self) -> (r: Self)
        ensures
            r == *self,
    {
        Tarefa {
            nome: self.nome.clone(),
            descricao: self.descricao.clone(),
            prazo: self.prazo.clone(),
            duracao: self.duracao,
            prioridade: self.prioridade,
        }
    }
}

/// What a `Tarefa` holds, as plain values.
#[verifier::ext_equal]
pub struct DadosTarefa {
    pub nome: Seq<char>,
    pub descricao: Seq<char>,
    pub prazo: Seq<char>,
    pub duracao: u32,
    pub prioridade: Prioridade,
}

impl View for Tarefa {
    type V = DadosTarefa;

    open spec fn view(&self) -> DadosTarefa {
        DadosTarefa {
            nome: self.nome@,
            descricao: self.descricao@,
            prazo: self.prazo@,
            duracao: self.duracao,
            prioridade: self.prioridade,
        }
    }
}

/// The number of bytes that `s` takes when encoded as UTF-8.
pub open spec fn comprimento(s: Seq<char>) -> nat {
    encode_utf8(s).len()
}

/// The first rule that the fields break, in the order in which the rules are
/// checked: empty name, empty description, empty deadline, zero duration,
/// deadline that is no date, field too long. `data_ok` says whether the
/// deadline was recognised as a date.
pub open spec fn primeiro_erro(
    regras: Regras,
    nome: Seq<char>,
    descricao: Seq<char>,
    prazo: Seq<char>,
    duracao: u32,
    data_ok: bool,
) -> Option<Error> {
    if nome.len() == 0 {
        Some(Error::CampoVazio(Campo::Nome))
    } else if descricao.len() == 0 {
        Some(Error::CampoVazio(Campo::Descricao))
    } else if prazo.len() == 0 {
        Some(Error::CampoVazio(Campo::Prazo))
    } else if duracao == 0 {
        Some(Error::DuracaoZero)
    } else if regras.validar_data && !data_ok {
        Some(Error::DataInvalida)
    } else if regras.limitar_campos && comprimento(nome) > MAX_NOME_LEN {
        Some(Error::CampoLongo { campo: Campo::Nome, limite: MAX_NOME_LEN })
    } else if regras.limitar_campos && comprimento(descricao) > MAX_DESCRICAO_LEN {
        Some(Error::CampoLongo { campo: Campo::Descricao, limite: MAX_DESCRICAO_LEN })
    } else if regras.limitar_campos && comprimento(prazo) > MAX_PRAZO_LEN {
        Some(Error::CampoLongo { campo: Campo::Prazo, limite: MAX_PRAZO_LEN })
    } else {
        None
    }
}

/// The first rule that the raw fields break once they are trimmed.
pub open spec fn erro_dos_campos(
    regras: Regras,
    nome: Seq<char>,
    descricao: Seq<char>,
    prazo: Seq<char>,
    duracao: u32,
) -> Option<Error> {
    primeiro_erro(
        regras,
        aparado(nome),
        aparado(descricao),
        aparado(prazo),
        duracao,
        data_reconhecida(aparado(prazo), formato_prazo()),
    )
}

/// The record that the raw fields stand for: the texts trimmed, the rest as
/// given.
pub open spec fn dados_dos_campos(
    nome: Seq<char>,
    descricao: Seq<char>,
    prazo: Seq<char>,
    duracao: u32,
    prioridade: Prioridade,
) -> DadosTarefa {
    DadosTarefa {
        nome: aparado(nome),
        descricao: aparado(descricao),
        prazo: aparado(prazo),
        duracao,
        prioridade,
    }
}

impl DadosTarefa {
    /// A record is valid when its texts are trimmed and it breaks no rule:
    /// it is what `construir` returns for its own fields.
    pub open spec fn valida(self, regras: Regras) -> bool {
        &&& aparado(self.nome) == self.nome
        &&& aparado(self.descricao) == self.descricao
        &&& aparado(self.prazo) == self.prazo
        &&& primeiro_erro(
            regras,
            self.nome,
            self.descricao,
            self.prazo,
            self.duracao,
            data_reconhecida(self.prazo, formato_prazo()),
        ) is None
    }
}

impl Regras {
    /// Only the rules that always hold: no field empty, duration above zero.
    pub open spec fn regras_basicas() -> Regras {
        Regras { validar_data: false, limitar_campos: false, nome_unico: false }
    }

    /// The basic rules and a deadline that is a calendar date.
    pub open spec fn regras_com_data() -> Regras {
        Regras { validar_data: true, limitar_campos: false, nome_unico: false }
    }

    /// Only the rules that always hold: no field empty, duration above zero.
    #[verifier::when_used_as_spec(regras_basicas)]
    pub fn basicas() -> (r: Regras)
        ensures
            r == Regras::regras_basicas(),
    {
        Regras { validar_data: false, limitar_campos: false, nome_unico: false }
    }

    /// The basic rules and a deadline that is a calendar date.
    #[verifier::when_used_as_spec(regras_com_data)]
    pub fn com_data() -> (r: Regras)
        ensures
            r == Regras::regras_com_data(),
    {
        Regras { validar_data: true, limitar_campos: false, nome_unico: false }
    }
}

/// Checks trimmed fields against the rules and returns the first one broken.
/// `data_ok` is what the recognition of the deadline as a date gave; it is
/// read only where `regras.validar_data` is set.
pub fn validar(
    regras: &Regras,
    nome: &str,
    descricao: &str,
    prazo: &str,
    duracao: u32,
    data_ok: bool,
) -> (r: Result<(), Error>)
    ensures
        r == match primeiro_erro(*regras, nome@, descricao@, prazo@, duracao, data_ok) {
            Some(e) => Err::<(), Error>(e),
            None => Ok(()),
        },
{
    if nome.is_empty() {
        Err(Error::CampoVazio(Campo::Nome))
    } else if descricao.is_empty() {
        Err(Error::CampoVazio(Campo::Descricao))
    } else if prazo.is_empty() {
        Err(Error::CampoVazio(Campo::Prazo))
    } else if duracao == 0 {
        Err(Error::DuracaoZero)
    } else if regras.validar_data && !data_ok {
        Err(Error::DataInvalida)
    } else if regras.limitar_campos && nome.as_bytes().len() > MAX_NOME_LEN as usize {
        Err(Error::CampoLongo { campo: Campo::Nome, limite: MAX_NOME_LEN })
    } else if regras.limitar_campos && descricao.as_bytes().len() > MAX_DESCRICAO_LEN as usize {
        Err(Error::CampoLongo { campo: Campo::Descricao, limite: MAX_DESCRICAO_LEN })
    } else if regras.limitar_campos && prazo.as_bytes().len() > MAX_PRAZO_LEN as usize {
        Err(Error::CampoLongo { campo: Campo::Prazo, limite: MAX_PRAZO_LEN })
    } else {
        Ok(())
    }
}

/// Builds a task from raw fields: trims the three texts, checks them against
/// `regras` and, where no rule is broken, returns the record with the trimmed
/// texts. Otherwise returns the first rule broken.
pub fn construir(
    regras: &Regras,
    nome: &str,
    descricao: &str,
    prazo: &str,
    duracao: u32,
    prioridade: Prioridade,
) -> (r: Result<Tarefa, Error>)
    ensures
        match r {
            Ok(t) => {
                &&& erro_dos_campos(*regras, nome@, descricao@, prazo@, duracao) is None
                &&& t@ == dados_dos_campos(nome@, descricao@, prazo@, duracao, prioridade)
                &&& t@.valida(*regras)
            },
            Err(e) => erro_dos_campos(*regras, nome@, descricao@, prazo@, duracao) == Some(e),
        },
{
    let n = aparar(nome);
    let d = aparar(descricao);
    let p = aparar(prazo);
    let data_ok = !regras.validar_data || reconhecer_data(p, "%Y-%m-%d");
    match validar(regras, n, d, p, duracao, data_ok) {
        Err(e) => Err(e),
        Ok(()) => {
            proof {
                lema_aparado(nome@);
                lema_aparado(descricao@);
                lema_aparado(prazo@);
            }
            Ok(
                Tarefa {
                    nome: n.to_owned(),
                    descricao: d.to_owned(),
                    prazo: p.to_owned(),
                    duracao,
                    prioridade,
                },
            )
        },
    }
}

/// Builds a task under the basic rules.
pub fn criar_tarefa(
    nome: &str,
    descricao: &str,
    prazo: &str,
    duracao: u32,
    prioridade: Prioridade,
) -> (r: Result<Tarefa, Error>)
    ensures
        match r {
            Ok(t) => {
                &&& erro_dos_campos(Regras::basicas(), nome@, descricao@, prazo@, duracao) is None
                &&& t@ == dados_dos_campos(nome@, descricao@, prazo@, duracao, prioridade)
            },
            Err(e) => erro_dos_campos(Regras::basicas(), nome@, descricao@, prazo@, duracao)
                == Some(e),
        },
{
    let regras = Regras::basicas();
    construir(&regras, nome, descricao, prazo, duracao, prioridade)
}

impl Tarefa {
    /// Whether the record is valid under `regras`: its texts trimmed and no
    /// rule broken. Nothing is changed to make it so.
    pub fn conferir(&self, regras: &Regras) -> (b: bool)
        ensures
            b == self@.valida(*regras),
    {
        if !sem_espaco_nas_pontas(self.nome.as_str()) || !sem_espaco_nas_pontas(
            self.descricao.as_str(),
        ) || !sem_espaco_nas_pontas(self.prazo.as_str()) {
            return false;
        }
        let data_ok = !regras.validar_data || reconhecer_data(self.prazo.as_str(), "%Y-%m-%d");
        validar(
            regras,
            self.nome.as_str(),
            self.descricao.as_str(),
            self.prazo.as_str(),
            self.duracao,
            data_ok,
        ).is_ok()
    }

    /// Builds a task whose deadline has to be a calendar date.
    pub fn nova(
        nome: &str,
        descricao: &str,
        prazo: &str,
        prioridade: Prioridade,
        tempo_estimado: u32,
    ) -> (r: Result<Tarefa, Error>)
        ensures
            match r {
                Ok(t) => {
                    &&& erro_dos_campos(Regras::com_data(), nome@, descricao@, prazo@, tempo_estimado)
                        is None
                    &&& t@ == dados_dos_campos(nome@, descricao@, prazo@, tempo_estimado, prioridade)
                },
                Err(e) => erro_dos_campos(
                    Regras::com_data(),
                    nome@,
                    descricao@,
                    prazo@,
                    tempo_estimado,
                ) == Some(e),
            },
    {
        let regras = Regras::com_data();
        construir(&regras, nome, descricao, prazo, tempo_estimado, prioridade)
    }
}

/// Fields that meet every rule once trimmed are accepted, and the record
/// they give is valid: no text empty, the duration above zero, the deadline
/// a date where dates are checked, no text above its limit where fields are
/// bounded.
pub proof fn lei_campos_validos_aceitos(
    regras: Regras,
    nome: Seq<char>,
    descricao: Seq<char>,
    prazo: Seq<char>,
    duracao: u32,
    prioridade: Prioridade,
)
    requires
        aparado(nome).len() > 0,
        aparado(descricao).len() > 0,
        aparado(prazo).len() > 0,
        duracao > 0,
        regras.validar_data ==> data_reconhecida(aparado(prazo), formato_prazo()),
        regras.limitar_campos ==> {
            &&& comprimento(aparado(nome)) <= MAX_NOME_LEN
            &&& comprimento(aparado(descricao)) <= MAX_DESCRICAO_LEN
            &&& comprimento(aparado(prazo)) <= MAX_PRAZO_LEN
        },
    ensures
        erro_dos_campos(regras, nome, descricao, prazo, duracao) is None,
        dados_dos_campos(nome, descricao, prazo, duracao, prioridade).valida(regras),
{
    lema_aparado(nome);
    lema_aparado(descricao);
    lema_aparado(prazo);
}

/// A text field that is empty once trimmed is refused, and the error names
/// the first such field in the order name, description, deadline.
pub proof fn lei_campo_vazio_recusado(
    regras: Regras,
    nome: Seq<char>,
    descricao: Seq<char>,
    prazo: Seq<char>,
    duracao: u32,
)
    ensures
        aparado(nome).len() == 0 ==> erro_dos_campos(regras, nome, descricao, prazo, duracao)
            == Some(Error::CampoVazio(Campo::Nome)),
        aparado(nome).len() > 0 && aparado(descricao).len() == 0 ==> erro_dos_campos(
            regras,
            nome,
            descricao,
            prazo,
            duracao,
        ) == Some(Error::CampoVazio(Campo::Descricao)),
        aparado(nome).len() > 0 && aparado(descricao).len() > 0 && aparado(prazo).len() == 0
            ==> erro_dos_campos(regras, nome, descricao, prazo, duracao) == Some(
            Error::CampoVazio(Campo::Prazo),
        ),
{
}

/// A duration of zero is always refused, as `DuracaoZero` where no text
/// field is empty; a duration above zero is never refused as `DuracaoZero`.
pub proof fn lei_duracao(
    regras: Regras,
    nome: Seq<char>,
    descricao: Seq<char>,
    prazo: Seq<char>,
    duracao: u32,
)
    ensures
        duracao == 0 ==> erro_dos_campos(regras, nome, descricao, prazo, duracao) is Some,
        duracao == 0 && aparado(nome).len() > 0 && aparado(descricao).len() > 0 && aparado(
            prazo,
        ).len() > 0 ==> erro_dos_campos(regras, nome, descricao, prazo, duracao) == Some(
            Error::DuracaoZero,
        ),
        duracao >= 1 ==> erro_dos_campos(regras, nome, descricao, prazo, duracao) != Some(
            Error::DuracaoZero,
        ),
{
}

} // verus!
