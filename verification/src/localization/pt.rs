use vstd::prelude::*;
use crate::resource::{IDS_APPTITLE, IDS_CANTCHANGEPRI, IDS_CANTDEBUG, IDS_CANTKILL, IDS_CANTSETAFFINITY, IDS_COL_BASEPRIORITY, IDS_COL_COMMITCHARGE, IDS_COL_CPU, IDS_COL_CPUTIME, IDS_COL_HANDLECOUNT, IDS_COL_IMAGENAME, IDS_COL_MEMUSAGE, IDS_COL_MEMUSAGEDIFF, IDS_COL_NONPAGEDPOOL, IDS_COL_PAGEDPOOL, IDS_COL_PAGEFAULTS, IDS_COL_PAGEFAULTSDIFF, IDS_COL_PID, IDS_COL_SESSIONID, IDS_COL_TASKDESKTOP, IDS_COL_TASKNAME, IDS_COL_TASKSTATUS, IDS_COL_TASKWINSTATION, IDS_COL_THREADCOUNT, IDS_COL_USERNAME, IDS_DEBUG, IDS_FMTCPU, IDS_FMTCPUNUM, IDS_FMTMEM, IDS_FMTPROCS, IDS_FMTTASKS, IDS_HIGH, IDS_INVALIDOPTION, IDS_KERNELTIME, IDS_KILL, IDS_LOW, IDS_MEMUSAGE, IDS_NETPAGETITLE, IDS_NOAFFINITYMASK, IDS_NORMAL, IDS_PERFPAGETITLE, IDS_PRICHANGE, IDS_PROCPAGETITLE, IDS_REALTIME, IDS_RUNTEXT, IDS_RUNTITLE, IDS_TASKMGR, IDS_TASKMGRDISABLED, IDS_TASKPAGETITLE, IDS_TOTALTIME, IDS_UNKNOWN, IDS_USERPAGETITLE, IDS_WARNING};
use crate::text_key::TextKey;
use super::en_us;

verus! {

/// The Portuguese string of a numbered string resource; empty when the table has none.
pub open spec fn spec_resource(id: u32) -> &'static str {
    if id == IDS_PERFPAGETITLE {
        "Desempenho"
    } else if id == IDS_NETPAGETITLE {
        "Rede"
    } else if id == IDS_RUNTITLE {
        "Executar"
    } else if id == IDS_RUNTEXT {
        "Digite o nome de um programa, pasta, documento ou recurso da Internet, e o Windows o abrirá para você."
    } else if id == IDS_APPTITLE || id == IDS_TASKMGR {
        "Gerenciador de Tarefas do Windows NT"
    } else if id == IDS_PROCPAGETITLE {
        "Processos"
    } else if id == IDS_TASKPAGETITLE {
        "Aplicativos"
    } else if id == IDS_USERPAGETITLE {
        "Usuários"
    } else if id == IDS_TASKMGRDISABLED {
        "O Gerenciador de Tarefas foi desativado pelo administrador."
    } else if id == IDS_WARNING {
        "Aviso do Gerenciador de Tarefas"
    } else if id == IDS_LOW {
        "Baixa"
    } else if id == IDS_HIGH {
        "Alta"
    } else if id == IDS_REALTIME {
        "Tempo real"
    } else if id == IDS_NORMAL {
        "Normal"
    } else if id == IDS_UNKNOWN {
        "Desconhecido"
    } else if id == IDS_CANTSETAFFINITY {
        "A operação não pôde ser concluída.\n\n"
    } else if id == IDS_CANTKILL {
        "Não foi possível encerrar o processo"
    } else if id == IDS_CANTDEBUG {
        "Não foi possível anexar o depurador"
    } else if id == IDS_CANTCHANGEPRI {
        "Não foi possível alterar a prioridade"
    } else if id == IDS_FMTTASKS {
        "Aplicativos: %d"
    } else if id == IDS_FMTPROCS {
        "Processos: %d"
    } else if id == IDS_FMTCPU {
        "Uso da CPU: %d%%"
    } else if id == IDS_FMTMEM {
        "Uso de memória: %dK / %dK"
    } else if id == IDS_INVALIDOPTION {
        "Opção inválida"
    } else if id == IDS_NOAFFINITYMASK {
        "O processo deve ter afinidade com pelo menos um processador."
    } else if id == IDS_FMTCPUNUM {
        "CPU %d"
    } else if id == IDS_TOTALTIME {
        "CPU total"
    } else if id == IDS_KERNELTIME {
        "CPU do kernel"
    } else if id == IDS_MEMUSAGE {
        "Uso de memória"
    } else if id == IDS_COL_IMAGENAME {
        "Nome da imagem"
    } else if id == IDS_COL_PID {
        "PID"
    } else if id == IDS_COL_CPU {
        "CPU"
    } else if id == IDS_COL_CPUTIME {
        "Tempo de CPU"
    } else if id == IDS_COL_MEMUSAGE {
        "Uso de memória"
    } else if id == IDS_COL_MEMUSAGEDIFF {
        "Delta de memória"
    } else if id == IDS_COL_PAGEFAULTS {
        "Falhas de página"
    } else if id == IDS_COL_PAGEFAULTSDIFF {
        "Delta de falhas de página"
    } else if id == IDS_COL_COMMITCHARGE {
        "Tamanho da memória virtual"
    } else if id == IDS_COL_PAGEDPOOL {
        "Pool paginado"
    } else if id == IDS_COL_NONPAGEDPOOL {
        "Pool não paginado"
    } else if id == IDS_COL_BASEPRIORITY {
        "Prioridade básica"
    } else if id == IDS_COL_HANDLECOUNT {
        "Handles"
    } else if id == IDS_COL_THREADCOUNT {
        "Threads"
    } else if id == IDS_COL_SESSIONID {
        "ID da sessão"
    } else if id == IDS_COL_USERNAME {
        "Nome de usuário"
    } else if id == IDS_COL_TASKNAME {
        "Tarefa"
    } else if id == IDS_COL_TASKSTATUS {
        "Status"
    } else if id == IDS_COL_TASKWINSTATION {
        "Estação Win"
    } else if id == IDS_COL_TASKDESKTOP {
        "Área de trabalho"
    } else if id == IDS_PRICHANGE {
        "AVISO: Alterar a classe de prioridade deste processo pode causar resultados indesejados, incluindo instabilidade do sistema. Tem certeza de que deseja alterar a classe de prioridade?"
    } else if id == IDS_KILL {
        "AVISO: Encerrar um processo pode causar resultados indesejados, incluindo perda de dados e instabilidade do sistema. O processo não terá chance de salvar seu estado ou seus dados antes de ser encerrado. Tem certeza de que deseja encerrar este processo?"
    } else if id == IDS_DEBUG {
        "AVISO: Depurar este processo pode resultar em perda de dados. Tem certeza de que deseja anexar o depurador?"
    } else {
        ""
    }
}

/// Whether the Portuguese table holds a string for the resource `id`.
pub open spec fn has_resource(id: u32) -> bool {
    id == IDS_PERFPAGETITLE
    || id == IDS_NETPAGETITLE
    || id == IDS_RUNTITLE
    || id == IDS_RUNTEXT
    || id == IDS_APPTITLE
    || id == IDS_TASKMGR
    || id == IDS_PROCPAGETITLE
    || id == IDS_TASKPAGETITLE
    || id == IDS_USERPAGETITLE
    || id == IDS_TASKMGRDISABLED
    || id == IDS_WARNING
    || id == IDS_LOW
    || id == IDS_HIGH
    || id == IDS_REALTIME
    || id == IDS_NORMAL
    || id == IDS_UNKNOWN
    || id == IDS_CANTSETAFFINITY
    || id == IDS_CANTKILL
    || id == IDS_CANTDEBUG
    || id == IDS_CANTCHANGEPRI
    || id == IDS_FMTTASKS
    || id == IDS_FMTPROCS
    || id == IDS_FMTCPU
    || id == IDS_FMTMEM
    || id == IDS_INVALIDOPTION
    || id == IDS_NOAFFINITYMASK
    || id == IDS_FMTCPUNUM
    || id == IDS_TOTALTIME
    || id == IDS_KERNELTIME
    || id == IDS_MEMUSAGE
    || id == IDS_COL_IMAGENAME
    || id == IDS_COL_PID
    || id == IDS_COL_CPU
    || id == IDS_COL_CPUTIME
    || id == IDS_COL_MEMUSAGE
    || id == IDS_COL_MEMUSAGEDIFF
    || id == IDS_COL_PAGEFAULTS
    || id == IDS_COL_PAGEFAULTSDIFF
    || id == IDS_COL_COMMITCHARGE
    || id == IDS_COL_PAGEDPOOL
    || id == IDS_COL_NONPAGEDPOOL
    || id == IDS_COL_BASEPRIORITY
    || id == IDS_COL_HANDLECOUNT
    || id == IDS_COL_THREADCOUNT
    || id == IDS_COL_SESSIONID
    || id == IDS_COL_USERNAME
    || id == IDS_COL_TASKNAME
    || id == IDS_COL_TASKSTATUS
    || id == IDS_COL_TASKWINSTATION
    || id == IDS_COL_TASKDESKTOP
    || id == IDS_PRICHANGE
    || id == IDS_KILL
    || id == IDS_DEBUG
}

/// Looks up a numbered string resource in the Portuguese table.
pub fn resource(id: u32) -> (r: &'static str)
    ensures
        r == spec_resource(id),
{
    if id == IDS_PERFPAGETITLE {
        "Desempenho"
    } else if id == IDS_NETPAGETITLE {
        "Rede"
    } else if id == IDS_RUNTITLE {
        "Executar"
    } else if id == IDS_RUNTEXT {
        "Digite o nome de um programa, pasta, documento ou recurso da Internet, e o Windows o abrirá para você."
    } else if id == IDS_APPTITLE || id == IDS_TASKMGR {
        "Gerenciador de Tarefas do Windows NT"
    } else if id == IDS_PROCPAGETITLE {
        "Processos"
    } else if id == IDS_TASKPAGETITLE {
        "Aplicativos"
    } else if id == IDS_USERPAGETITLE {
        "Usuários"
    } else if id == IDS_TASKMGRDISABLED {
        "O Gerenciador de Tarefas foi desativado pelo administrador."
    } else if id == IDS_WARNING {
        "Aviso do Gerenciador de Tarefas"
    } else if id == IDS_LOW {
        "Baixa"
    } else if id == IDS_HIGH {
        "Alta"
    } else if id == IDS_REALTIME {
        "Tempo real"
    } else if id == IDS_NORMAL {
        "Normal"
    } else if id == IDS_UNKNOWN {
        "Desconhecido"
    } else if id == IDS_CANTSETAFFINITY {
        "A operação não pôde ser concluída.\n\n"
    } else if id == IDS_CANTKILL {
        "Não foi possível encerrar o processo"
    } else if id == IDS_CANTDEBUG {
        "Não foi possível anexar o depurador"
    } else if id == IDS_CANTCHANGEPRI {
        "Não foi possível alterar a prioridade"
    } else if id == IDS_FMTTASKS {
        "Aplicativos: %d"
    } else if id == IDS_FMTPROCS {
        "Processos: %d"
    } else if id == IDS_FMTCPU {
        "Uso da CPU: %d%%"
    } else if id == IDS_FMTMEM {
        "Uso de memória: %dK / %dK"
    } else if id == IDS_INVALIDOPTION {
        "Opção inválida"
    } else if id == IDS_NOAFFINITYMASK {
        "O processo deve ter afinidade com pelo menos um processador."
    } else if id == IDS_FMTCPUNUM {
        "CPU %d"
    } else if id == IDS_TOTALTIME {
        "CPU total"
    } else if id == IDS_KERNELTIME {
        "CPU do kernel"
    } else if id == IDS_MEMUSAGE {
        "Uso de memória"
    } else if id == IDS_COL_IMAGENAME {
        "Nome da imagem"
    } else if id == IDS_COL_PID {
        "PID"
    } else if id == IDS_COL_CPU {
        "CPU"
    } else if id == IDS_COL_CPUTIME {
        "Tempo de CPU"
    } else if id == IDS_COL_MEMUSAGE {
        "Uso de memória"
    } else if id == IDS_COL_MEMUSAGEDIFF {
        "Delta de memória"
    } else if id == IDS_COL_PAGEFAULTS {
        "Falhas de página"
    } else if id == IDS_COL_PAGEFAULTSDIFF {
        "Delta de falhas de página"
    } else if id == IDS_COL_COMMITCHARGE {
        "Tamanho da memória virtual"
    } else if id == IDS_COL_PAGEDPOOL {
        "Pool paginado"
    } else if id == IDS_COL_NONPAGEDPOOL {
        "Pool não paginado"
    } else if id == IDS_COL_BASEPRIORITY {
        "Prioridade básica"
    } else if id == IDS_COL_HANDLECOUNT {
        "Handles"
    } else if id == IDS_COL_THREADCOUNT {
        "Threads"
    } else if id == IDS_COL_SESSIONID {
        "ID da sessão"
    } else if id == IDS_COL_USERNAME {
        "Nome de usuário"
    } else if id == IDS_COL_TASKNAME {
        "Tarefa"
    } else if id == IDS_COL_TASKSTATUS {
        "Status"
    } else if id == IDS_COL_TASKWINSTATION {
        "Estação Win"
    } else if id == IDS_COL_TASKDESKTOP {
        "Área de trabalho"
    } else if id == IDS_PRICHANGE {
        "AVISO: Alterar a classe de prioridade deste processo pode causar resultados indesejados, incluindo instabilidade do sistema. Tem certeza de que deseja alterar a classe de prioridade?"
    } else if id == IDS_KILL {
        "AVISO: Encerrar um processo pode causar resultados indesejados, incluindo perda de dados e instabilidade do sistema. O processo não terá chance de salvar seu estado ou seus dados antes de ser encerrado. Tem certeza de que deseja encerrar este processo?"
    } else if id == IDS_DEBUG {
        "AVISO: Depurar este processo pode resultar em perda de dados. Tem certeza de que deseja anexar o depurador?"
    } else {
        ""
    }
}

/// A resource of the Portuguese table is non-empty exactly when the table lists it.
pub proof fn lemma_resource_nonempty(id: u32)
    ensures
        spec_resource(id)@.len() > 0 <==> has_resource(id),
{
    if id == IDS_PERFPAGETITLE {
        reveal_strlit("Desempenho");
    } else if id == IDS_NETPAGETITLE {
        reveal_strlit("Rede");
    } else if id == IDS_RUNTITLE {
        reveal_strlit("Executar");
    } else if id == IDS_RUNTEXT {
        reveal_strlit("Digite o nome de um programa, pasta, documento ou recurso da Internet, e o Windows o abrirá para você.");
    } else if id == IDS_APPTITLE || id == IDS_TASKMGR {
        reveal_strlit("Gerenciador de Tarefas do Windows NT");
    } else if id == IDS_PROCPAGETITLE {
        reveal_strlit("Processos");
    } else if id == IDS_TASKPAGETITLE {
        reveal_strlit("Aplicativos");
    } else if id == IDS_USERPAGETITLE {
        reveal_strlit("Usuários");
    } else if id == IDS_TASKMGRDISABLED {
        reveal_strlit("O Gerenciador de Tarefas foi desativado pelo administrador.");
    } else if id == IDS_WARNING {
        reveal_strlit("Aviso do Gerenciador de Tarefas");
    } else if id == IDS_LOW {
        reveal_strlit("Baixa");
    } else if id == IDS_HIGH {
        reveal_strlit("Alta");
    } else if id == IDS_REALTIME {
        reveal_strlit("Tempo real");
    } else if id == IDS_NORMAL {
        reveal_strlit("Normal");
    } else if id == IDS_UNKNOWN {
        reveal_strlit("Desconhecido");
    } else if id == IDS_CANTSETAFFINITY {
        reveal_strlit("A operação não pôde ser concluída.\n\n");
    } else if id == IDS_CANTKILL {
        reveal_strlit("Não foi possível encerrar o processo");
    } else if id == IDS_CANTDEBUG {
        reveal_strlit("Não foi possível anexar o depurador");
    } else if id == IDS_CANTCHANGEPRI {
        reveal_strlit("Não foi possível alterar a prioridade");
    } else if id == IDS_FMTTASKS {
        reveal_strlit("Aplicativos: %d");
    } else if id == IDS_FMTPROCS {
        reveal_strlit("Processos: %d");
    } else if id == IDS_FMTCPU {
        reveal_strlit("Uso da CPU: %d%%");
    } else if id == IDS_FMTMEM {
        reveal_strlit("Uso de memória: %dK / %dK");
    } else if id == IDS_INVALIDOPTION {
        reveal_strlit("Opção inválida");
    } else if id == IDS_NOAFFINITYMASK {
        reveal_strlit("O processo deve ter afinidade com pelo menos um processador.");
    } else if id == IDS_FMTCPUNUM {
        reveal_strlit("CPU %d");
    } else if id == IDS_TOTALTIME {
        reveal_strlit("CPU total");
    } else if id == IDS_KERNELTIME {
        reveal_strlit("CPU do kernel");
    } else if id == IDS_MEMUSAGE {
        reveal_strlit("Uso de memória");
    } else if id == IDS_COL_IMAGENAME {
        reveal_strlit("Nome da imagem");
    } else if id == IDS_COL_PID {
        reveal_strlit("PID");
    } else if id == IDS_COL_CPU {
        reveal_strlit("CPU");
    } else if id == IDS_COL_CPUTIME {
        reveal_strlit("Tempo de CPU");
    } else if id == IDS_COL_MEMUSAGE {
        reveal_strlit("Uso de memória");
    } else if id == IDS_COL_MEMUSAGEDIFF {
        reveal_strlit("Delta de memória");
    } else if id == IDS_COL_PAGEFAULTS {
        reveal_strlit("Falhas de página");
    } else if id == IDS_COL_PAGEFAULTSDIFF {
        reveal_strlit("Delta de falhas de página");
    } else if id == IDS_COL_COMMITCHARGE {
        reveal_strlit("Tamanho da memória virtual");
    } else if id == IDS_COL_PAGEDPOOL {
        reveal_strlit("Pool paginado");
    } else if id == IDS_COL_NONPAGEDPOOL {
        reveal_strlit("Pool não paginado");
    } else if id == IDS_COL_BASEPRIORITY {
        reveal_strlit("Prioridade básica");
    } else if id == IDS_COL_HANDLECOUNT {
        reveal_strlit("Handles");
    } else if id == IDS_COL_THREADCOUNT {
        reveal_strlit("Threads");
    } else if id == IDS_COL_SESSIONID {
        reveal_strlit("ID da sessão");
    } else if id == IDS_COL_USERNAME {
        reveal_strlit("Nome de usuário");
    } else if id == IDS_COL_TASKNAME {
        reveal_strlit("Tarefa");
    } else if id == IDS_COL_TASKSTATUS {
        reveal_strlit("Status");
    } else if id == IDS_COL_TASKWINSTATION {
        reveal_strlit("Estação Win");
    } else if id == IDS_COL_TASKDESKTOP {
        reveal_strlit("Área de trabalho");
    } else if id == IDS_PRICHANGE {
        reveal_strlit("AVISO: Alterar a classe de prioridade deste processo pode causar resultados indesejados, incluindo instabilidade do sistema. Tem certeza de que deseja alterar a classe de prioridade?");
    } else if id == IDS_KILL {
        reveal_strlit("AVISO: Encerrar um processo pode causar resultados indesejados, incluindo perda de dados e instabilidade do sistema. O processo não terá chance de salvar seu estado ou seus dados antes de ser encerrado. Tem certeza de que deseja encerrar este processo?");
    } else if id == IDS_DEBUG {
        reveal_strlit("AVISO: Depurar este processo pode resultar em perda de dados. Tem certeza de que deseja anexar o depurador?");
    } else {
        reveal_strlit("");
    }
}

/// The Portuguese string of a text key.
pub open spec fn spec_text(key: TextKey) -> &'static str {
    match key {
        TextKey::File => "&Arquivo",
        TextKey::Options => "&Opções",
        TextKey::View => "E&xibir",
        TextKey::Windows => "&Janelas",
        TextKey::Help => "A&juda",
        TextKey::UpdateSpeed => "&Velocidade de atualização",
        TextKey::CpuHistory => "&Histórico da CPU",
        TextKey::NewTaskMenu => "&Executar...",
        TextKey::NewTaskButton => "&Executar...",
        TextKey::ExitTaskManager => "Sai&r do Gerenciador de Tarefas",
        TextKey::AlwaysOnTop => "&Sempre visível",
        TextKey::MinimizeOnUse => "&Minimizar ao usar",
        TextKey::Confirmations => "&Confirmações",
        TextKey::HideWhenMinimized => "&Ocultar ao minimizar",
        TextKey::RefreshNow => "&Atualizar agora",
        TextKey::High => "&Alta",
        TextKey::Normal => "&Normal",
        TextKey::Low => "&Baixa",
        TextKey::Paused => "&Pausado",
        TextKey::LargeIcons => "Ícones &grandes",
        TextKey::SmallIcons => "Ícones &pequenos",
        TextKey::Details => "&Detalhes",
        TextKey::TileHorizontally => "Lado a lado &horizontalmente",
        TextKey::TileVertically => "Lado a lado &verticalmente",
        TextKey::Minimize => "&Minimizar",
        TextKey::Maximize => "Ma&ximizar",
        TextKey::Cascade => "&Em cascata",
        TextKey::BringToFront => "Trazer para &frente",
        TextKey::HelpTopics => "Tópicos de &ajuda do Gerenciador de Tarefas",
        TextKey::AboutTaskManager => "&Sobre o Gerenciador de Tarefas",
        TextKey::OneGraphAllCpus => "Um gráfico, &todas as CPUs",
        TextKey::OneGraphPerCpu => "Um gráfico &por CPU",
        TextKey::SelectColumnsMenu => "Selecionar colunas...",
        TextKey::SelectColumnsTitle => "Selecionar colunas",
        TextKey::SelectProcessColumnsDescription => "Selecione as colunas que serao exibidas na guia Processos do Gerenciador de Tarefas.",
        TextKey::ShowKernelTimes => "Mostrar tempos do &kernel",
        TextKey::RestoreTaskManager => "&Restaurar o Gerenciador de Tarefas",
        TextKey::EndProcess => "&Finalizar processo",
        TextKey::EndProcessTree => en_us::spec_text(key),
        TextKey::OpenFileLocation => en_us::spec_text(key),
        TextKey::Debug => "&Depurar",
        TextKey::SetPriority => "Definir &prioridade",
        TextKey::Realtime => "&Tempo real",
        TextKey::AboveNormal => en_us::spec_text(key),
        TextKey::BelowNormal => en_us::spec_text(key),
        TextKey::SetAffinity => "Definir a&finidade...",
        TextKey::SwitchTo => "&Alternar para",
        TextKey::EndTask => "&Finalizar tarefa",
        TextKey::GoToProcess => "&Ir para o processo",
        TextKey::Disconnect => "&Desconectar",
        TextKey::Logoff => "&Logoff",
        TextKey::SendMessage => "&Enviar mensagem...",
        TextKey::SendMessageTitle => "Enviar mensagem",
        TextKey::TaskManager => "Gerenciador de Tarefas",
        TextKey::Handles => "Handles",
        TextKey::Threads => "Threads",
        TextKey::ProcessesLabel => "Processos",
        TextKey::CpuUsageHistory => "Histórico de uso da CPU",
        TextKey::CpuUsage => "Uso da CPU",
        TextKey::MemUsage => "Uso de memória",
        TextKey::MemoryUsageHistory => "Histórico de uso de memória",
        TextKey::PhysicalMemoryK => "Memória física (K)",
        TextKey::CommitChargeK => "Memória confirmada (K)",
        TextKey::KernelMemoryK => "Memória do kernel (K)",
        TextKey::Totals => "Totais",
        TextKey::Total => "Total",
        TextKey::Available => "Disponível",
        TextKey::FileCache => "Cache de arquivos",
        TextKey::Paged => "Paginado",
        TextKey::Nonpaged => "Não paginado",
        TextKey::Limit => "Limite",
        TextKey::Peak => "Pico",
        TextKey::NoActiveNetworkAdaptersFound => "Nenhum adaptador de rede ativo encontrado.",
        TextKey::OkButton => "OK",
        TextKey::Cancel => "Cancelar",
        TextKey::ImageName => "Nome da imagem",
        TextKey::PidProcessIdentifier => "PID (identificador do processo)",
        TextKey::UserName => "Nome de usuário",
        TextKey::SessionId => "ID da sessão",
        TextKey::CpuTime => "Tempo de CPU",
        TextKey::MemoryUsage => "Uso de memória",
        TextKey::MemoryUsageDelta => "Delta de uso de memória",
        TextKey::PageFaults => "Falhas de página",
        TextKey::PageFaultsDelta => "Delta de falhas de página",
        TextKey::VirtualMemorySize => "Tamanho da memória virtual",
        TextKey::PagedPool => "Pool paginado",
        TextKey::NonPagedPool => "Pool não paginado",
        TextKey::BasePriority => "Prioridade básica",
        TextKey::HandleCount => "Contagem de handles",
        TextKey::ThreadCount => "Contagem de threads",
        TextKey::ProcessorAffinity => "Afinidade do processador",
        TextKey::Processors => "Processadores",
        TextKey::ProcessorAffinityDescription => "A configuracao de afinidade do processador controla em quais CPUs o processo pode ser executado.",
        TextKey::MessageTitleLabel => "Título da mensagem:",
        TextKey::MessageLabel => "Mensagem:",
        TextKey::ShowFullAccountName => "Mostrar nome completo da conta",
        TextKey::User => "Usuário",
        TextKey::Status => "Status",
        TextKey::ClientName => "Nome do cliente",
        TextKey::Session => "Sessão",
        TextKey::Adapter => "Adaptador",
        TextKey::NetworkUtilization => "Utilização da rede",
        TextKey::LinkSpeed => "Velocidade do link",
        TextKey::State => "Status",
        TextKey::BytesSent => "Bytes enviados",
        TextKey::BytesReceived => "Bytes recebidos",
        TextKey::BytesTotal => "Total de bytes",
        TextKey::Connected => "Conectado",
        TextKey::Disconnected => "Desconectado",
        TextKey::Connecting => "Conectando",
        TextKey::Disconnecting => "Desconectando",
        TextKey::HardwareMissing => "Hardware ausente",
        TextKey::HardwareDisabled => "Hardware desabilitado",
        TextKey::HardwareMalfunction => "Falha de hardware",
        TextKey::Unknown => "Desconhecido",
        TextKey::Active => "Ativo",
        TextKey::ConnectQuery => "Consulta de conexão",
        TextKey::Shadow => "Sombra",
        TextKey::Idle => "Inativo",
        TextKey::Listening => "Escutando",
        TextKey::Reset => "Redefinir",
        TextKey::Down => "Inativo",
        TextKey::Init => "Inicializando",
        TextKey::Bitness32Suffix => "(32 bits)",
        TextKey::NotResponding => "Nao esta respondendo",
        TextKey::Running => "Em execucao",
        TextKey::MessageCouldNotBeSent => "Nao foi possivel enviar a mensagem.",
        TextKey::UnableToOpenFileLocation => en_us::spec_text(key),
        TextKey::KillProcessTreePrompt => en_us::spec_text(key),
        TextKey::KillProcessTreeFailed => en_us::spec_text(key),
        TextKey::KillProcessTreeFailedBody => en_us::spec_text(key),
        TextKey::ConfirmLogoffSelectedUsers => "Tem certeza de que deseja fazer logoff dos usuarios selecionados?",
        TextKey::ConfirmDisconnectSelectedUsers => "Tem certeza de que deseja desconectar os usuarios selecionados?",
        TextKey::SelectedUserCouldNotBeLoggedOff => "Nao foi possivel fazer logoff do usuario selecionado.",
        TextKey::SelectedUserCouldNotBeDisconnected => "Nao foi possivel desconectar o usuario selecionado.",
        TextKey::Win32ErrorPrefix => "Erro do Win32:",
        TextKey::Recv => en_us::spec_text(key),
        TextKey::Sent => en_us::spec_text(key),
        TextKey::Tasks => en_us::spec_text(key),
        TextKey::Processes => en_us::spec_text(key),
        TextKey::Users => en_us::spec_text(key),
        TextKey::NoTitle => en_us::spec_text(key),
    }
}

/// Looks up a text key in the Portuguese table.
pub fn text(key: TextKey) -> (r: &'static str)
    ensures
        r == spec_text(key),
{
    match key {
        TextKey::File => "&Arquivo",
        TextKey::Options => "&Opções",
        TextKey::View => "E&xibir",
        TextKey::Windows => "&Janelas",
        TextKey::Help => "A&juda",
        TextKey::UpdateSpeed => "&Velocidade de atualização",
        TextKey::CpuHistory => "&Histórico da CPU",
        TextKey::NewTaskMenu => "&Executar...",
        TextKey::NewTaskButton => "&Executar...",
        TextKey::ExitTaskManager => "Sai&r do Gerenciador de Tarefas",
        TextKey::AlwaysOnTop => "&Sempre visível",
        TextKey::MinimizeOnUse => "&Minimizar ao usar",
        TextKey::Confirmations => "&Confirmações",
        TextKey::HideWhenMinimized => "&Ocultar ao minimizar",
        TextKey::RefreshNow => "&Atualizar agora",
        TextKey::High => "&Alta",
        TextKey::Normal => "&Normal",
        TextKey::Low => "&Baixa",
        TextKey::Paused => "&Pausado",
        TextKey::LargeIcons => "Ícones &grandes",
        TextKey::SmallIcons => "Ícones &pequenos",
        TextKey::Details => "&Detalhes",
        TextKey::TileHorizontally => "Lado a lado &horizontalmente",
        TextKey::TileVertically => "Lado a lado &verticalmente",
        TextKey::Minimize => "&Minimizar",
        TextKey::Maximize => "Ma&ximizar",
        TextKey::Cascade => "&Em cascata",
        TextKey::BringToFront => "Trazer para &frente",
        TextKey::HelpTopics => "Tópicos de &ajuda do Gerenciador de Tarefas",
        TextKey::AboutTaskManager => "&Sobre o Gerenciador de Tarefas",
        TextKey::OneGraphAllCpus => "Um gráfico, &todas as CPUs",
        TextKey::OneGraphPerCpu => "Um gráfico &por CPU",
        TextKey::SelectColumnsMenu => "Selecionar colunas...",
        TextKey::SelectColumnsTitle => "Selecionar colunas",
        TextKey::SelectProcessColumnsDescription => "Selecione as colunas que serao exibidas na guia Processos do Gerenciador de Tarefas.",
        TextKey::ShowKernelTimes => "Mostrar tempos do &kernel",
        TextKey::RestoreTaskManager => "&Restaurar o Gerenciador de Tarefas",
        TextKey::EndProcess => "&Finalizar processo",
        TextKey::EndProcessTree => en_us::text(key),
        TextKey::OpenFileLocation => en_us::text(key),
        TextKey::Debug => "&Depurar",
        TextKey::SetPriority => "Definir &prioridade",
        TextKey::Realtime => "&Tempo real",
        TextKey::AboveNormal => en_us::text(key),
        TextKey::BelowNormal => en_us::text(key),
        TextKey::SetAffinity => "Definir a&finidade...",
        TextKey::SwitchTo => "&Alternar para",
        TextKey::EndTask => "&Finalizar tarefa",
        TextKey::GoToProcess => "&Ir para o processo",
        TextKey::Disconnect => "&Desconectar",
        TextKey::Logoff => "&Logoff",
        TextKey::SendMessage => "&Enviar mensagem...",
        TextKey::SendMessageTitle => "Enviar mensagem",
        TextKey::TaskManager => "Gerenciador de Tarefas",
        TextKey::Handles => "Handles",
        TextKey::Threads => "Threads",
        TextKey::ProcessesLabel => "Processos",
        TextKey::CpuUsageHistory => "Histórico de uso da CPU",
        TextKey::CpuUsage => "Uso da CPU",
        TextKey::MemUsage => "Uso de memória",
        TextKey::MemoryUsageHistory => "Histórico de uso de memória",
        TextKey::PhysicalMemoryK => "Memória física (K)",
        TextKey::CommitChargeK => "Memória confirmada (K)",
        TextKey::KernelMemoryK => "Memória do kernel (K)",
        TextKey::Totals => "Totais",
        TextKey::Total => "Total",
        TextKey::Available => "Disponível",
        TextKey::FileCache => "Cache de arquivos",
        TextKey::Paged => "Paginado",
        TextKey::Nonpaged => "Não paginado",
        TextKey::Limit => "Limite",
        TextKey::Peak => "Pico",
        TextKey::NoActiveNetworkAdaptersFound => "Nenhum adaptador de rede ativo encontrado.",
        TextKey::OkButton => "OK",
        TextKey::Cancel => "Cancelar",
        TextKey::ImageName => "Nome da imagem",
        TextKey::PidProcessIdentifier => "PID (identificador do processo)",
        TextKey::UserName => "Nome de usuário",
        TextKey::SessionId => "ID da sessão",
        TextKey::CpuTime => "Tempo de CPU",
        TextKey::MemoryUsage => "Uso de memória",
        TextKey::MemoryUsageDelta => "Delta de uso de memória",
        TextKey::PageFaults => "Falhas de página",
        TextKey::PageFaultsDelta => "Delta de falhas de página",
        TextKey::VirtualMemorySize => "Tamanho da memória virtual",
        TextKey::PagedPool => "Pool paginado",
        TextKey::NonPagedPool => "Pool não paginado",
        TextKey::BasePriority => "Prioridade básica",
        TextKey::HandleCount => "Contagem de handles",
        TextKey::ThreadCount => "Contagem de threads",
        TextKey::ProcessorAffinity => "Afinidade do processador",
        TextKey::Processors => "Processadores",
        TextKey::ProcessorAffinityDescription => "A configuracao de afinidade do processador controla em quais CPUs o processo pode ser executado.",
        TextKey::MessageTitleLabel => "Título da mensagem:",
        TextKey::MessageLabel => "Mensagem:",
        TextKey::ShowFullAccountName => "Mostrar nome completo da conta",
        TextKey::User => "Usuário",
        TextKey::Status => "Status",
        TextKey::ClientName => "Nome do cliente",
        TextKey::Session => "Sessão",
        TextKey::Adapter => "Adaptador",
        TextKey::NetworkUtilization => "Utilização da rede",
        TextKey::LinkSpeed => "Velocidade do link",
        TextKey::State => "Status",
        TextKey::BytesSent => "Bytes enviados",
        TextKey::BytesReceived => "Bytes recebidos",
        TextKey::BytesTotal => "Total de bytes",
        TextKey::Connected => "Conectado",
        TextKey::Disconnected => "Desconectado",
        TextKey::Connecting => "Conectando",
        TextKey::Disconnecting => "Desconectando",
        TextKey::HardwareMissing => "Hardware ausente",
        TextKey::HardwareDisabled => "Hardware desabilitado",
        TextKey::HardwareMalfunction => "Falha de hardware",
        TextKey::Unknown => "Desconhecido",
        TextKey::Active => "Ativo",
        TextKey::ConnectQuery => "Consulta de conexão",
        TextKey::Shadow => "Sombra",
        TextKey::Idle => "Inativo",
        TextKey::Listening => "Escutando",
        TextKey::Reset => "Redefinir",
        TextKey::Down => "Inativo",
        TextKey::Init => "Inicializando",
        TextKey::Bitness32Suffix => "(32 bits)",
        TextKey::NotResponding => "Nao esta respondendo",
        TextKey::Running => "Em execucao",
        TextKey::MessageCouldNotBeSent => "Nao foi possivel enviar a mensagem.",
        TextKey::UnableToOpenFileLocation => en_us::text(key),
        TextKey::KillProcessTreePrompt => en_us::text(key),
        TextKey::KillProcessTreeFailed => en_us::text(key),
        TextKey::KillProcessTreeFailedBody => en_us::text(key),
        TextKey::ConfirmLogoffSelectedUsers => "Tem certeza de que deseja fazer logoff dos usuarios selecionados?",
        TextKey::ConfirmDisconnectSelectedUsers => "Tem certeza de que deseja desconectar os usuarios selecionados?",
        TextKey::SelectedUserCouldNotBeLoggedOff => "Nao foi possivel fazer logoff do usuario selecionado.",
        TextKey::SelectedUserCouldNotBeDisconnected => "Nao foi possivel desconectar o usuario selecionado.",
        TextKey::Win32ErrorPrefix => "Erro do Win32:",
        TextKey::Recv => en_us::text(key),
        TextKey::Sent => en_us::text(key),
        TextKey::Tasks => en_us::text(key),
        TextKey::Processes => en_us::text(key),
        TextKey::Users => en_us::text(key),
        TextKey::NoTitle => en_us::text(key),
    }
}

/// Every text key has a non-empty Portuguese string.
pub proof fn lemma_text_nonempty(key: TextKey)
    ensures
        spec_text(key)@.len() > 0,
{
    en_us::lemma_text_nonempty(key);
    match key {
        TextKey::File => { reveal_strlit("&Arquivo"); }
        TextKey::Options => { reveal_strlit("&Opções"); }
        TextKey::View => { reveal_strlit("E&xibir"); }
        TextKey::Windows => { reveal_strlit("&Janelas"); }
        TextKey::Help => { reveal_strlit("A&juda"); }
        TextKey::UpdateSpeed => { reveal_strlit("&Velocidade de atualização"); }
        TextKey::CpuHistory => { reveal_strlit("&Histórico da CPU"); }
        TextKey::NewTaskMenu => { reveal_strlit("&Executar..."); }
        TextKey::NewTaskButton => { reveal_strlit("&Executar..."); }
        TextKey::ExitTaskManager => { reveal_strlit("Sai&r do Gerenciador de Tarefas"); }
        TextKey::AlwaysOnTop => { reveal_strlit("&Sempre visível"); }
        TextKey::MinimizeOnUse => { reveal_strlit("&Minimizar ao usar"); }
        TextKey::Confirmations => { reveal_strlit("&Confirmações"); }
        TextKey::HideWhenMinimized => { reveal_strlit("&Ocultar ao minimizar"); }
        TextKey::RefreshNow => { reveal_strlit("&Atualizar agora"); }
        TextKey::High => { reveal_strlit("&Alta"); }
        TextKey::Normal => { reveal_strlit("&Normal"); }
        TextKey::Low => { reveal_strlit("&Baixa"); }
        TextKey::Paused => { reveal_strlit("&Pausado"); }
        TextKey::LargeIcons => { reveal_strlit("Ícones &grandes"); }
        TextKey::SmallIcons => { reveal_strlit("Ícones &pequenos"); }
        TextKey::Details => { reveal_strlit("&Detalhes"); }
        TextKey::TileHorizontally => { reveal_strlit("Lado a lado &horizontalmente"); }
        TextKey::TileVertically => { reveal_strlit("Lado a lado &verticalmente"); }
        TextKey::Minimize => { reveal_strlit("&Minimizar"); }
        TextKey::Maximize => { reveal_strlit("Ma&ximizar"); }
        TextKey::Cascade => { reveal_strlit("&Em cascata"); }
        TextKey::BringToFront => { reveal_strlit("Trazer para &frente"); }
        TextKey::HelpTopics => { reveal_strlit("Tópicos de &ajuda do Gerenciador de Tarefas"); }
        TextKey::AboutTaskManager => { reveal_strlit("&Sobre o Gerenciador de Tarefas"); }
        TextKey::OneGraphAllCpus => { reveal_strlit("Um gráfico, &todas as CPUs"); }
        TextKey::OneGraphPerCpu => { reveal_strlit("Um gráfico &por CPU"); }
        TextKey::SelectColumnsMenu => { reveal_strlit("Selecionar colunas..."); }
        TextKey::SelectColumnsTitle => { reveal_strlit("Selecionar colunas"); }
        TextKey::SelectProcessColumnsDescription => { reveal_strlit("Selecione as colunas que serao exibidas na guia Processos do Gerenciador de Tarefas."); }
        TextKey::ShowKernelTimes => { reveal_strlit("Mostrar tempos do &kernel"); }
        TextKey::RestoreTaskManager => { reveal_strlit("&Restaurar o Gerenciador de Tarefas"); }
        TextKey::EndProcess => { reveal_strlit("&Finalizar processo"); }
        TextKey::EndProcessTree => {}
        TextKey::OpenFileLocation => {}
        TextKey::Debug => { reveal_strlit("&Depurar"); }
        TextKey::SetPriority => { reveal_strlit("Definir &prioridade"); }
        TextKey::Realtime => { reveal_strlit("&Tempo real"); }
        TextKey::AboveNormal => {}
        TextKey::BelowNormal => {}
        TextKey::SetAffinity => { reveal_strlit("Definir a&finidade..."); }
        TextKey::SwitchTo => { reveal_strlit("&Alternar para"); }
        TextKey::EndTask => { reveal_strlit("&Finalizar tarefa"); }
        TextKey::GoToProcess => { reveal_strlit("&Ir para o processo"); }
        TextKey::Disconnect => { reveal_strlit("&Desconectar"); }
        TextKey::Logoff => { reveal_strlit("&Logoff"); }
        TextKey::SendMessage => { reveal_strlit("&Enviar mensagem..."); }
        TextKey::SendMessageTitle => { reveal_strlit("Enviar mensagem"); }
        TextKey::TaskManager => { reveal_strlit("Gerenciador de Tarefas"); }
        TextKey::Handles => { reveal_strlit("Handles"); }
        TextKey::Threads => { reveal_strlit("Threads"); }
        TextKey::ProcessesLabel => { reveal_strlit("Processos"); }
        TextKey::CpuUsageHistory => { reveal_strlit("Histórico de uso da CPU"); }
        TextKey::CpuUsage => { reveal_strlit("Uso da CPU"); }
        TextKey::MemUsage => { reveal_strlit("Uso de memória"); }
        TextKey::MemoryUsageHistory => { reveal_strlit("Histórico de uso de memória"); }
        TextKey::PhysicalMemoryK => { reveal_strlit("Memória física (K)"); }
        TextKey::CommitChargeK => { reveal_strlit("Memória confirmada (K)"); }
        TextKey::KernelMemoryK => { reveal_strlit("Memória do kernel (K)"); }
        TextKey::Totals => { reveal_strlit("Totais"); }
        TextKey::Total => { reveal_strlit("Total"); }
        TextKey::Available => { reveal_strlit("Disponível"); }
        TextKey::FileCache => { reveal_strlit("Cache de arquivos"); }
        TextKey::Paged => { reveal_strlit("Paginado"); }
        TextKey::Nonpaged => { reveal_strlit("Não paginado"); }
        TextKey::Limit => { reveal_strlit("Limite"); }
        TextKey::Peak => { reveal_strlit("Pico"); }
        TextKey::NoActiveNetworkAdaptersFound => { reveal_strlit("Nenhum adaptador de rede ativo encontrado."); }
        TextKey::OkButton => { reveal_strlit("OK"); }
        TextKey::Cancel => { reveal_strlit("Cancelar"); }
        TextKey::ImageName => { reveal_strlit("Nome da imagem"); }
        TextKey::PidProcessIdentifier => { reveal_strlit("PID (identificador do processo)"); }
        TextKey::UserName => { reveal_strlit("Nome de usuário"); }
        TextKey::SessionId => { reveal_strlit("ID da sessão"); }
        TextKey::CpuTime => { reveal_strlit("Tempo de CPU"); }
        TextKey::MemoryUsage => { reveal_strlit("Uso de memória"); }
        TextKey::MemoryUsageDelta => { reveal_strlit("Delta de uso de memória"); }
        TextKey::PageFaults => { reveal_strlit("Falhas de página"); }
        TextKey::PageFaultsDelta => { reveal_strlit("Delta de falhas de página"); }
        TextKey::VirtualMemorySize => { reveal_strlit("Tamanho da memória virtual"); }
        TextKey::PagedPool => { reveal_strlit("Pool paginado"); }
        TextKey::NonPagedPool => { reveal_strlit("Pool não paginado"); }
        TextKey::BasePriority => { reveal_strlit("Prioridade básica"); }
        TextKey::HandleCount => { reveal_strlit("Contagem de handles"); }
        TextKey::ThreadCount => { reveal_strlit("Contagem de threads"); }
        TextKey::ProcessorAffinity => { reveal_strlit("Afinidade do processador"); }
        TextKey::Processors => { reveal_strlit("Processadores"); }
        TextKey::ProcessorAffinityDescription => { reveal_strlit("A configuracao de afinidade do processador controla em quais CPUs o processo pode ser executado."); }
        TextKey::MessageTitleLabel => { reveal_strlit("Título da mensagem:"); }
        TextKey::MessageLabel => { reveal_strlit("Mensagem:"); }
        TextKey::ShowFullAccountName => { reveal_strlit("Mostrar nome completo da conta"); }
        TextKey::User => { reveal_strlit("Usuário"); }
        TextKey::Status => { reveal_strlit("Status"); }
        TextKey::ClientName => { reveal_strlit("Nome do cliente"); }
        TextKey::Session => { reveal_strlit("Sessão"); }
        TextKey::Adapter => { reveal_strlit("Adaptador"); }
        TextKey::NetworkUtilization => { reveal_strlit("Utilização da rede"); }
        TextKey::LinkSpeed => { reveal_strlit("Velocidade do link"); }
        TextKey::State => { reveal_strlit("Status"); }
        TextKey::BytesSent => { reveal_strlit("Bytes enviados"); }
        TextKey::BytesReceived => { reveal_strlit("Bytes recebidos"); }
        TextKey::BytesTotal => { reveal_strlit("Total de bytes"); }
        TextKey::Connected => { reveal_strlit("Conectado"); }
        TextKey::Disconnected => { reveal_strlit("Desconectado"); }
        TextKey::Connecting => { reveal_strlit("Conectando"); }
        TextKey::Disconnecting => { reveal_strlit("Desconectando"); }
        TextKey::HardwareMissing => { reveal_strlit("Hardware ausente"); }
        TextKey::HardwareDisabled => { reveal_strlit("Hardware desabilitado"); }
        TextKey::HardwareMalfunction => { reveal_strlit("Falha de hardware"); }
        TextKey::Unknown => { reveal_strlit("Desconhecido"); }
        TextKey::Active => { reveal_strlit("Ativo"); }
        TextKey::ConnectQuery => { reveal_strlit("Consulta de conexão"); }
        TextKey::Shadow => { reveal_strlit("Sombra"); }
        TextKey::Idle => { reveal_strlit("Inativo"); }
        TextKey::Listening => { reveal_strlit("Escutando"); }
        TextKey::Reset => { reveal_strlit("Redefinir"); }
        TextKey::Down => { reveal_strlit("Inativo"); }
        TextKey::Init => { reveal_strlit("Inicializando"); }
        TextKey::Bitness32Suffix => { reveal_strlit("(32 bits)"); }
        TextKey::NotResponding => { reveal_strlit("Nao esta respondendo"); }
        TextKey::Running => { reveal_strlit("Em execucao"); }
        TextKey::MessageCouldNotBeSent => { reveal_strlit("Nao foi possivel enviar a mensagem."); }
        TextKey::UnableToOpenFileLocation => {}
        TextKey::KillProcessTreePrompt => {}
        TextKey::KillProcessTreeFailed => {}
        TextKey::KillProcessTreeFailedBody => {}
        TextKey::ConfirmLogoffSelectedUsers => { reveal_strlit("Tem certeza de que deseja fazer logoff dos usuarios selecionados?"); }
        TextKey::ConfirmDisconnectSelectedUsers => { reveal_strlit("Tem certeza de que deseja desconectar os usuarios selecionados?"); }
        TextKey::SelectedUserCouldNotBeLoggedOff => { reveal_strlit("Nao foi possivel fazer logoff do usuario selecionado."); }
        TextKey::SelectedUserCouldNotBeDisconnected => { reveal_strlit("Nao foi possivel desconectar o usuario selecionado."); }
        TextKey::Win32ErrorPrefix => { reveal_strlit("Erro do Win32:"); }
        TextKey::Recv => {}
        TextKey::Sent => {}
        TextKey::Tasks => {}
        TextKey::Processes => {}
        TextKey::Users => {}
        TextKey::NoTitle => {}
    }
}

} // verus!
