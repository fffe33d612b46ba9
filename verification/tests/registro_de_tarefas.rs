use topicos_especiais::{
    Campo, Config, Diario, Error, Event, Pallet, Prioridade, Regras, Registro, Tarefa,
};

fn novo(regras: Regras) -> Pallet<Diario> {
    Pallet::new(Diario::new(), regras)
}

fn unicas() -> Regras {
    Regras { validar_data: false, limitar_campos: false, nome_unico: true }
}

fn tarefa(nome: &str) -> Tarefa {
    Tarefa {
        nome: nome.to_string(),
        descricao: "D".to_string(),
        prazo: "2024-12-05".to_string(),
        duracao: 1,
        prioridade: Prioridade::Baixa,
    }
}

fn registro(id: u64, nome: &str) -> Registro {
    Registro { id, tarefa: tarefa(nome), concluida: false }
}

#[test]
fn registro_novo_esta_vazio() {
    let p = novo(Regras::basicas());
    assert_eq!(p.len(), 0);
    assert_eq!(p.proximo_id(), 0);
    assert_eq!(p.regras(), Regras::basicas());
    assert!(p.listar().is_empty());
    assert!(p.host().registrados().is_empty());
}

#[test]
fn criar_atualizar_obter_e_remover() {
    let mut p = novo(Regras::com_data());
    let (id, t) = p.criar_tarefa("Study", "Read chapter 1", "2024-12-05", 5, Prioridade::Alta).unwrap();
    assert_eq!(id, 0);
    assert_eq!(t.nome, "Study");

    assert_eq!(
        p.atualizar_tarefa(0, "Study", "Read chapters 1-2", "2024-12-05", 5, Prioridade::Alta),
        Ok(())
    );
    assert_eq!(p.tarefas(0).unwrap().tarefa.descricao, "Read chapters 1-2");
    assert_eq!(p.tarefas(0).unwrap().tarefa.nome, "Study");
    assert_eq!(p.tarefas(0).unwrap().tarefa.duracao, 5);

    assert_eq!(p.remover_tarefa(0), Ok(()));
    assert_eq!(p.tarefas(0), Err(Error::TarefaNaoEncontrada));
}

#[test]
fn criar_com_nome_vazio_deixa_o_registro_como_estava() {
    let mut p = novo(Regras::basicas());
    p.criar_tarefa("A", "D", "2024-12-05", 1, Prioridade::Baixa).unwrap();
    let antes = p.listar();
    assert_eq!(
        p.criar_tarefa("", "desc", "2024-12-05", 1, Prioridade::Baixa),
        Err(Error::CampoVazio(Campo::Nome))
    );
    assert_eq!(p.len(), 1);
    assert_eq!(p.listar(), antes);
    assert_eq!(p.proximo_id(), 1);
    assert_eq!(p.host().registrados().len(), 1);
}

#[test]
fn criar_com_data_invalida_falha() {
    let mut p = novo(Regras::com_data());
    assert_eq!(
        p.criar_tarefa("T", "D", "2024-31-12", 2, Prioridade::Media),
        Err(Error::DataInvalida)
    );
    assert_eq!(p.len(), 0);
    assert!(p.host().registrados().is_empty());
}

#[test]
fn ids_sobem_de_um_em_um_e_nao_se_repetem() {
    let mut p = novo(Regras::basicas());
    let (a, _) = p.criar_tarefa("A", "D", "P", 1, Prioridade::Baixa).unwrap();
    let (b, _) = p.criar_tarefa("A", "D", "P", 1, Prioridade::Baixa).unwrap();
    let (c, _) = p.criar_tarefa("C", "D", "P", 1, Prioridade::Baixa).unwrap();
    assert_eq!((a, b, c), (0, 1, 2));
    assert_ne!(a, b);
}

#[test]
fn id_removido_nao_volta() {
    let mut p = novo(Regras::basicas());
    p.criar_tarefa("A", "D", "P", 1, Prioridade::Baixa).unwrap();
    let (b, _) = p.criar_tarefa("B", "D", "P", 1, Prioridade::Baixa).unwrap();
    assert_eq!(p.remover_tarefa(b), Ok(()));
    assert_eq!(p.tarefas(b), Err(Error::TarefaNaoEncontrada));
    assert_eq!(p.proximo_id(), 2);
    let (c, _) = p.criar_tarefa("C", "D", "P", 1, Prioridade::Baixa).unwrap();
    assert_eq!(c, 2);
    assert_eq!(p.tarefas(b), Err(Error::TarefaNaoEncontrada));
    assert_eq!(p.remover_tarefa(0), Ok(()));
    assert_eq!(p.remover_tarefa(c), Ok(()));
    let (d, _) = p.criar_tarefa("D", "D", "P", 1, Prioridade::Baixa).unwrap();
    assert_eq!(d, 3);
    assert_eq!(p.len(), 1);
}

#[test]
fn operacoes_sobre_id_ausente_dao_nao_encontrada() {
    let mut p = novo(Regras::basicas());
    p.criar_tarefa("A", "D", "P", 1, Prioridade::Baixa).unwrap();
    assert_eq!(p.tarefas(7), Err(Error::TarefaNaoEncontrada));
    assert_eq!(
        p.atualizar_tarefa(7, "A", "D", "P", 1, Prioridade::Baixa),
        Err(Error::TarefaNaoEncontrada)
    );
    assert_eq!(p.marcar_concluida(7), Err(Error::TarefaNaoEncontrada));
    assert_eq!(p.remover_tarefa(7), Err(Error::TarefaNaoEncontrada));
    assert_eq!(p.len(), 1);
    assert_eq!(p.host().registrados(), &vec![Event::TarefaCriada(0)]);
}

#[test]
fn atualizar_id_ausente_vem_antes_da_validacao() {
    let mut p = novo(Regras::basicas());
    assert_eq!(
        p.atualizar_tarefa(0, "", "", "", 0, Prioridade::Baixa),
        Err(Error::TarefaNaoEncontrada)
    );
}

#[test]
fn atualizar_com_campos_invalidos_nao_muda_nada() {
    let mut p = novo(Regras::com_data());
    p.criar_tarefa("A", "D", "2024-12-05", 1, Prioridade::Baixa).unwrap();
    let antes = p.listar();
    assert_eq!(
        p.atualizar_tarefa(0, "B", "", "2024-12-06", 2, Prioridade::Alta),
        Err(Error::CampoVazio(Campo::Descricao))
    );
    assert_eq!(
        p.atualizar_tarefa(0, "B", "E", "2024-12-06", 0, Prioridade::Alta),
        Err(Error::DuracaoZero)
    );
    assert_eq!(
        p.atualizar_tarefa(0, "B", "E", "2024-13-06", 2, Prioridade::Alta),
        Err(Error::DataInvalida)
    );
    assert_eq!(p.listar(), antes);
    assert_eq!(p.host().registrados().len(), 1);
}

#[test]
fn atualizar_troca_todos_os_campos_e_apara() {
    let mut p = novo(Regras::basicas());
    p.criar_tarefa("A", "D", "2024-12-05", 1, Prioridade::Baixa).unwrap();
    p.criar_tarefa("B", "D", "2024-12-05", 1, Prioridade::Baixa).unwrap();
    assert_eq!(p.atualizar_tarefa(1, " Z ", " Y ", " X ", 9, Prioridade::Alta), Ok(()));
    let lista = p.listar();
    assert_eq!(lista[0], registro(0, "A"));
    assert_eq!(
        lista[1],
        Registro {
            id: 1,
            tarefa: Tarefa {
                nome: "Z".to_string(),
                descricao: "Y".to_string(),
                prazo: "X".to_string(),
                duracao: 9,
                prioridade: Prioridade::Alta,
            },
            concluida: false,
        }
    );
}

#[test]
fn marcar_concluida_duas_vezes_e_marcar_uma() {
    let mut p = novo(Regras::basicas());
    p.criar_tarefa("A", "D", "P", 1, Prioridade::Baixa).unwrap();
    assert!(!p.tarefas(0).unwrap().concluida);
    assert_eq!(p.marcar_concluida(0), Ok(()));
    let lista = p.listar();
    let eventos = p.host().registrados().clone();
    assert!(lista[0].concluida);
    assert_eq!(eventos, vec![Event::TarefaCriada(0), Event::TarefaAtualizada(0)]);
    assert_eq!(p.marcar_concluida(0), Ok(()));
    assert_eq!(p.listar(), lista);
    assert_eq!(p.host().registrados(), &eventos);
    assert_eq!(p.proximo_id(), 1);
}

#[test]
fn atualizar_nao_desfaz_a_conclusao() {
    let mut p = novo(Regras::basicas());
    p.criar_tarefa("A", "D", "P", 1, Prioridade::Baixa).unwrap();
    p.marcar_concluida(0).unwrap();
    p.atualizar_tarefa(0, "B", "D", "P", 1, Prioridade::Baixa).unwrap();
    assert!(p.tarefas(0).unwrap().concluida);
    assert_eq!(p.tarefas(0).unwrap().tarefa.nome, "B");
}

#[test]
fn um_evento_por_mudanca_e_nenhum_por_falha() {
    let mut p = novo(unicas());
    p.criar_tarefa("A", "D", "P", 1, Prioridade::Baixa).unwrap();
    p.criar_tarefa("B", "D", "P", 1, Prioridade::Baixa).unwrap();
    assert!(p.criar_tarefa("A", "D", "P", 1, Prioridade::Baixa).is_err());
    assert!(p.criar_tarefa("C", "D", "P", 0, Prioridade::Baixa).is_err());
    p.atualizar_tarefa(1, "B", "E", "P", 1, Prioridade::Baixa).unwrap();
    assert!(p.atualizar_tarefa(1, "A", "E", "P", 1, Prioridade::Baixa).is_err());
    p.marcar_concluida(0).unwrap();
    p.remover_tarefa(0).unwrap();
    assert!(p.remover_tarefa(0).is_err());
    assert_eq!(
        p.host().registrados(),
        &vec![
            Event::TarefaCriada(0),
            Event::TarefaCriada(1),
            Event::TarefaAtualizada(1),
            Event::TarefaAtualizada(0),
            Event::TarefaRemovida(0),
        ]
    );
}

#[test]
fn nomes_unicos_recusam_nome_repetido_ao_criar() {
    let mut p = novo(unicas());
    p.criar_tarefa("Estudar Rust", "D", "P", 1, Prioridade::Baixa).unwrap();
    assert_eq!(
        p.criar_tarefa("Estudar Rust", "Outra", "Q", 2, Prioridade::Alta),
        Err(Error::TarefaJaExiste)
    );
    assert_eq!(
        p.criar_tarefa("  Estudar Rust ", "Outra", "Q", 2, Prioridade::Alta),
        Err(Error::TarefaJaExiste)
    );
    assert_eq!(p.len(), 1);
    assert_eq!(p.proximo_id(), 1);
    p.remover_tarefa(0).unwrap();
    assert_eq!(p.criar_tarefa("Estudar Rust", "Outra", "Q", 2, Prioridade::Alta).unwrap().0, 1);
}

#[test]
fn a_validacao_vem_antes_do_nome_repetido() {
    let mut p = novo(unicas());
    p.criar_tarefa("A", "D", "P", 1, Prioridade::Baixa).unwrap();
    assert_eq!(p.criar_tarefa("A", "D", "P", 0, Prioridade::Baixa), Err(Error::DuracaoZero));
}

#[test]
fn nomes_unicos_recusam_nome_de_outra_ao_atualizar() {
    let mut p = novo(unicas());
    p.criar_tarefa("A", "D", "P", 1, Prioridade::Baixa).unwrap();
    p.criar_tarefa("B", "D", "P", 1, Prioridade::Baixa).unwrap();
    assert_eq!(
        p.atualizar_tarefa(1, "A", "D", "P", 1, Prioridade::Baixa),
        Err(Error::TarefaJaExiste)
    );
    assert_eq!(p.tarefas(1).unwrap().tarefa.nome, "B");
    assert_eq!(p.atualizar_tarefa(1, "B", "E", "P", 1, Prioridade::Baixa), Ok(()));
    assert_eq!(p.atualizar_tarefa(1, "C", "E", "P", 1, Prioridade::Baixa), Ok(()));
    assert_eq!(p.tarefas(1).unwrap().tarefa.nome, "C");
}

#[test]
fn sem_nomes_unicos_o_nome_pode_repetir() {
    let mut p = novo(Regras::basicas());
    p.criar_tarefa("A", "D", "P", 1, Prioridade::Baixa).unwrap();
    assert_eq!(p.criar_tarefa("A", "E", "Q", 2, Prioridade::Alta).unwrap().0, 1);
    assert_eq!(p.id_por_nome("A"), Some(0));
    p.remover_tarefa(0).unwrap();
    assert_eq!(p.id_por_nome("A"), Some(1));
}

#[test]
fn id_por_nome_apara_e_diz_quando_nao_ha() {
    let mut p = novo(Regras::basicas());
    p.criar_tarefa("A", "D", "P", 1, Prioridade::Baixa).unwrap();
    p.criar_tarefa(" B ", "D", "P", 1, Prioridade::Baixa).unwrap();
    assert_eq!(p.id_por_nome("B"), Some(1));
    assert_eq!(p.id_por_nome("  B\n"), Some(1));
    assert_eq!(p.id_por_nome("C"), None);
    assert_eq!(p.id_por_nome(""), None);
}

#[test]
fn listar_vai_do_menor_id_ao_maior() {
    let mut p = novo(Regras::basicas());
    for nome in ["A", "B", "C", "D", "E"] {
        p.criar_tarefa(nome, "D", "P", 1, Prioridade::Baixa).unwrap();
    }
    p.remover_tarefa(1).unwrap();
    p.remover_tarefa(3).unwrap();
    p.criar_tarefa("F", "D", "P", 1, Prioridade::Baixa).unwrap();
    let lista = p.listar();
    let ids: Vec<u64> = lista.iter().map(|r| r.id).collect();
    let nomes: Vec<&str> = lista.iter().map(|r| r.tarefa.nome.as_str()).collect();
    assert_eq!(ids, vec![0, 2, 4, 5]);
    assert_eq!(nomes, vec!["A", "C", "E", "F"]);
    for id in ids {
        assert_eq!(p.tarefas(id).unwrap().id, id);
    }
    assert!(p.tarefas(1).is_err());
    assert!(p.tarefas(3).is_err());
    assert!(p.tarefas(6).is_err());
}

#[test]
fn listar_e_uma_copia() {
    let mut p = novo(Regras::basicas());
    p.criar_tarefa("A", "D", "P", 1, Prioridade::Baixa).unwrap();
    let mut lista = p.listar();
    lista[0].tarefa.nome = "mudado".to_string();
    lista.clear();
    assert_eq!(p.tarefas(0).unwrap().tarefa.nome, "A");
    assert_eq!(p.len(), 1);
}

#[test]
fn sem_ids_de_sobra_criar_falha() {
    let mut p =
        Pallet::restaurar(Diario::new(), Regras::basicas(), vec![registro(5, "A")], u64::MAX)
            .unwrap();
    assert_eq!(p.criar_tarefa("B", "D", "P", 1, Prioridade::Baixa), Err(Error::EstouroDeId));
    assert_eq!(p.len(), 1);
    assert_eq!(p.proximo_id(), u64::MAX);
    assert!(p.host().registrados().is_empty());
}

#[test]
fn o_ultimo_id_dado_e_o_penultimo_numero() {
    let mut p =
        Pallet::restaurar(Diario::new(), Regras::basicas(), Vec::new(), u64::MAX - 1).unwrap();
    assert_eq!(p.criar_tarefa("B", "D", "P", 1, Prioridade::Baixa).unwrap().0, u64::MAX - 1);
    assert_eq!(p.criar_tarefa("C", "D", "P", 1, Prioridade::Baixa), Err(Error::EstouroDeId));
}

#[test]
fn restaurar_o_que_listar_deu_devolve_o_mesmo_registro() {
    let regras = Regras { validar_data: true, limitar_campos: true, nome_unico: true };
    let mut p = novo(regras);
    p.criar_tarefa("A", "D", "2024-12-05", 1, Prioridade::Baixa).unwrap();
    p.criar_tarefa("B", "E", "2024-12-06", 2, Prioridade::Media).unwrap();
    p.criar_tarefa("C", "F", "2024-12-07", 3, Prioridade::Alta).unwrap();
    p.marcar_concluida(1).unwrap();
    p.remover_tarefa(2).unwrap();

    let q = Pallet::restaurar(Diario::new(), regras, p.listar(), p.proximo_id()).unwrap();
    assert_eq!(q.listar(), p.listar());
    assert_eq!(q.proximo_id(), 3);
    assert_eq!(q.regras(), regras);
    assert!(q.host().registrados().is_empty());
}

#[test]
fn restaurar_recusa_registros_fora_de_ordem_ou_repetidos() {
    let r = Regras::basicas();
    let ok = Pallet::restaurar(Diario::new(), r, vec![registro(1, "A"), registro(4, "B")], 5);
    assert!(ok.is_ok());
    let fora = Pallet::restaurar(Diario::new(), r, vec![registro(4, "A"), registro(1, "B")], 5);
    assert_eq!(fora.err(), Some(Error::RegistroInvalido));
    let repetido = Pallet::restaurar(Diario::new(), r, vec![registro(1, "A"), registro(1, "B")], 5);
    assert_eq!(repetido.err(), Some(Error::RegistroInvalido));
}

#[test]
fn restaurar_recusa_id_que_ainda_nao_foi_dado() {
    let r = Regras::basicas();
    assert!(Pallet::restaurar(Diario::new(), r, vec![registro(4, "A")], 5).is_ok());
    assert_eq!(
        Pallet::restaurar(Diario::new(), r, vec![registro(5, "A")], 5).err(),
        Some(Error::RegistroInvalido)
    );
    assert_eq!(
        Pallet::restaurar(Diario::new(), r, vec![registro(0, "A")], 0).err(),
        Some(Error::RegistroInvalido)
    );
}

#[test]
fn restaurar_recusa_tarefa_invalida_sem_a_consertar() {
    let r = Regras::com_data();
    let mut ruim = registro(0, "A");
    ruim.tarefa.duracao = 0;
    assert_eq!(
        Pallet::restaurar(Diario::new(), r, vec![ruim], 1).err(),
        Some(Error::RegistroInvalido)
    );
    assert_eq!(
        Pallet::restaurar(Diario::new(), r, vec![registro(0, " A ")], 1).err(),
        Some(Error::RegistroInvalido)
    );
    assert_eq!(
        Pallet::restaurar(Diario::new(), r, vec![registro(0, "")], 1).err(),
        Some(Error::RegistroInvalido)
    );
    let mut sem_data = registro(0, "A");
    sem_data.tarefa.prazo = "2024-31-12".to_string();
    assert_eq!(
        Pallet::restaurar(Diario::new(), r, vec![sem_data], 1).err(),
        Some(Error::RegistroInvalido)
    );
}

#[test]
fn restaurar_recusa_nomes_repetidos_onde_sao_unicos() {
    let dupla = || vec![registro(0, "A"), registro(1, "B"), registro(2, "A")];
    assert!(Pallet::restaurar(Diario::new(), Regras::basicas(), dupla(), 3).is_ok());
    assert_eq!(
        Pallet::restaurar(Diario::new(), unicas(), dupla(), 3).err(),
        Some(Error::RegistroInvalido)
    );
    assert!(Pallet::<Diario>::conferir_registros(&Regras::basicas(), &dupla(), 3));
    assert!(!Pallet::<Diario>::conferir_registros(&unicas(), &dupla(), 3));
}

#[test]
fn restaurar_fica_com_os_eventos_que_o_hospedeiro_ja_tinha() {
    let mut d = Diario::new();
    d.deposit_event(Event::TarefaRemovida(9));
    let mut p = Pallet::restaurar(d, Regras::basicas(), vec![registro(3, "A")], 10).unwrap();
    p.marcar_concluida(3).unwrap();
    assert_eq!(
        p.host().registrados(),
        &vec![Event::TarefaRemovida(9), Event::TarefaAtualizada(3)]
    );
}

#[test]
fn diario_guarda_os_eventos_na_ordem_em_que_vieram() {
    let mut d = Diario::new();
    assert!(d.registrados().is_empty());
    d.deposit_event(Event::TarefaCriada(2));
    d.deposit_event(Event::TarefaCriada(1));
    d.deposit_event(Event::TarefaRemovida(2));
    assert_eq!(
        d.registrados(),
        &vec![Event::TarefaCriada(2), Event::TarefaCriada(1), Event::TarefaRemovida(2)]
    );
}

#[test]
fn busca_por_id_em_registro_grande() {
    let mut p = novo(Regras::basicas());
    for i in 0..200u32 {
        p.criar_tarefa(&format!("T{}", i), "D", "P", i + 1, Prioridade::Baixa).unwrap();
    }
    for id in (0..200u64).filter(|i| i % 3 == 0) {
        p.remover_tarefa(id).unwrap();
    }
    for id in 0..200u64 {
        match p.tarefas(id) {
            Ok(r) => {
                assert!(id % 3 != 0);
                assert_eq!(r.id, id);
                assert_eq!(r.tarefa.duracao as u64, id + 1);
            }
            Err(e) => {
                assert!(id % 3 == 0);
                assert_eq!(e, Error::TarefaNaoEncontrada);
            }
        }
    }
    assert_eq!(p.tarefas(200), Err(Error::TarefaNaoEncontrada));
}
