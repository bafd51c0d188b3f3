use vstd::prelude::*;
use crate::resource::{IDS_APPTITLE, IDS_CANTCHANGEPRI, IDS_CANTDEBUG, IDS_CANTKILL, IDS_CANTSETAFFINITY, IDS_COL_BASEPRIORITY, IDS_COL_COMMITCHARGE, IDS_COL_CPU, IDS_COL_CPUTIME, IDS_COL_HANDLECOUNT, IDS_COL_IMAGENAME, IDS_COL_MEMUSAGE, IDS_COL_MEMUSAGEDIFF, IDS_COL_NONPAGEDPOOL, IDS_COL_PAGEDPOOL, IDS_COL_PAGEFAULTS, IDS_COL_PAGEFAULTSDIFF, IDS_COL_PID, IDS_COL_SESSIONID, IDS_COL_TASKDESKTOP, IDS_COL_TASKNAME, IDS_COL_TASKSTATUS, IDS_COL_TASKWINSTATION, IDS_COL_THREADCOUNT, IDS_COL_USERNAME, IDS_DEBUG, IDS_FMTCPU, IDS_FMTCPUNUM, IDS_FMTMEM, IDS_FMTPROCS, IDS_FMTTASKS, IDS_HIGH, IDS_INVALIDOPTION, IDS_KERNELTIME, IDS_KILL, IDS_LOW, IDS_MEMUSAGE, IDS_NETPAGETITLE, IDS_NOAFFINITYMASK, IDS_NORMAL, IDS_PERFPAGETITLE, IDS_PRICHANGE, IDS_PROCPAGETITLE, IDS_REALTIME, IDS_RUNTEXT, IDS_RUNTITLE, IDS_TASKMGR, IDS_TASKMGRDISABLED, IDS_TASKPAGETITLE, IDS_TOTALTIME, IDS_UNKNOWN, IDS_USERPAGETITLE, IDS_WARNING};
use crate::text_key::TextKey;
use super::en_us;

verus! {

/// The French string of a numbered string resource; empty when the table has none.
pub open spec fn spec_resource(id: u32) -> &'static str {
    if id == IDS_PERFPAGETITLE {
        "Performances"
    } else if id == IDS_NETPAGETITLE {
        "Réseau"
    } else if id == IDS_RUNTITLE {
        "Exécuter"
    } else if id == IDS_RUNTEXT {
        "Tapez le nom d’un programme, dossier, document ou d’une ressource Internet, et Windows l’ouvrira pour vous."
    } else if id == IDS_APPTITLE || id == IDS_TASKMGR {
        "Gestionnaire des tâches Windows NT"
    } else if id == IDS_PROCPAGETITLE {
        "Processus"
    } else if id == IDS_TASKPAGETITLE {
        "Applications"
    } else if id == IDS_USERPAGETITLE {
        "Utilisateurs"
    } else if id == IDS_TASKMGRDISABLED {
        "Le Gestionnaire des tâches a été désactivé par votre administrateur."
    } else if id == IDS_WARNING {
        "Avertissement du Gestionnaire des tâches"
    } else if id == IDS_LOW {
        "Faible"
    } else if id == IDS_HIGH {
        "Élevée"
    } else if id == IDS_REALTIME {
        "Temps réel"
    } else if id == IDS_NORMAL {
        "Normale"
    } else if id == IDS_UNKNOWN {
        "Inconnu"
    } else if id == IDS_CANTSETAFFINITY {
        "L’opération n’a pas pu être terminée.\n\n"
    } else if id == IDS_CANTKILL {
        "Impossible de terminer le processus"
    } else if id == IDS_CANTDEBUG {
        "Impossible d’attacher le débogueur"
    } else if id == IDS_CANTCHANGEPRI {
        "Impossible de modifier la priorité"
    } else if id == IDS_FMTTASKS {
        "Applications : %d"
    } else if id == IDS_FMTPROCS {
        "Processus : %d"
    } else if id == IDS_FMTCPU {
        "Utilisation CPU : %d%%"
    } else if id == IDS_FMTMEM {
        "Utilisation mémoire : %dK / %dK"
    } else if id == IDS_INVALIDOPTION {
        "Option non valide"
    } else if id == IDS_NOAFFINITYMASK {
        "Le processus doit avoir une affinité avec au moins un processeur."
    } else if id == IDS_FMTCPUNUM {
        "CPU %d"
    } else if id == IDS_TOTALTIME {
        "CPU total"
    } else if id == IDS_KERNELTIME {
        "CPU noyau"
    } else if id == IDS_MEMUSAGE {
        "Utilisation mémoire"
    } else if id == IDS_COL_IMAGENAME {
        "Nom de l'image"
    } else if id == IDS_COL_PID {
        "PID"
    } else if id == IDS_COL_CPU {
        "CPU"
    } else if id == IDS_COL_CPUTIME {
        "Temps CPU"
    } else if id == IDS_COL_MEMUSAGE {
        "Utilisation mémoire"
    } else if id == IDS_COL_MEMUSAGEDIFF {
        "Delta mémoire"
    } else if id == IDS_COL_PAGEFAULTS {
        "Défauts de page"
    } else if id == IDS_COL_PAGEFAULTSDIFF {
        "Delta défauts de page"
    } else if id == IDS_COL_COMMITCHARGE {
        "Taille mémoire virtuelle"
    } else if id == IDS_COL_PAGEDPOOL {
        "Pool paginé"
    } else if id == IDS_COL_NONPAGEDPOOL {
        "Pool non paginé"
    } else if id == IDS_COL_BASEPRIORITY {
        "Priorité de base"
    } else if id == IDS_COL_HANDLECOUNT {
        "Handles"
    } else if id == IDS_COL_THREADCOUNT {
        "Threads"
    } else if id == IDS_COL_SESSIONID {
        "ID de session"
    } else if id == IDS_COL_USERNAME {
        "Nom d'utilisateur"
    } else if id == IDS_COL_TASKNAME {
        "Tâche"
    } else if id == IDS_COL_TASKSTATUS {
        "État"
    } else if id == IDS_COL_TASKWINSTATION {
        "Station Win"
    } else if id == IDS_COL_TASKDESKTOP {
        "Bureau"
    } else if id == IDS_PRICHANGE {
        "AVERTISSEMENT : la modification de la classe de priorité de ce processus peut entraîner des résultats indésirables, y compris une instabilité du système. Voulez-vous vraiment modifier la classe de priorité ?"
    } else if id == IDS_KILL {
        "AVERTISSEMENT : la fin d'un processus peut entraîner des résultats indésirables, notamment une perte de données et une instabilité du système. Le processus n'aura pas la possibilité d'enregistrer son état ou ses données avant d'être terminé. Voulez-vous vraiment terminer ce processus ?"
    } else if id == IDS_DEBUG {
        "AVERTISSEMENT : le débogage de ce processus peut entraîner une perte de données. Voulez-vous vraiment attacher le débogueur ?"
    } else {
        ""
    }
}

/// Whether the French table holds a string for the resource `id`.
pub open spec fn has_resource(id: u32) -> bool {
    id == IDS_PERFPAGETITLE
    || id == IDS_NETPAGETITLE
    || id == IDS_RUNTITLE
    || id == IDS_RUNTEXT
    || id == IDS_APPTITLE
    || id == IDS_TASKMGR
    || id == IDS_PROCPAGETITLE
    || id == IDS_TASKPAGETITLE
    || id == IDS_USERPAGETITLE
    || id == IDS_TASKMGRDISABLED
    || id == IDS_WARNING
    || id == IDS_LOW
    || id == IDS_HIGH
    || id == IDS_REALTIME
    || id == IDS_NORMAL
    || id == IDS_UNKNOWN
    || id == IDS_CANTSETAFFINITY
    || id == IDS_CANTKILL
    || id == IDS_CANTDEBUG
    || id == IDS_CANTCHANGEPRI
    || id == IDS_FMTTASKS
    || id == IDS_FMTPROCS
    || id == IDS_FMTCPU
    || id == IDS_FMTMEM
    || id == IDS_INVALIDOPTION
    || id == IDS_NOAFFINITYMASK
    || id == IDS_FMTCPUNUM
    || id == IDS_TOTALTIME
    || id == IDS_KERNELTIME
    || id == IDS_MEMUSAGE
    || id == IDS_COL_IMAGENAME
    || id == IDS_COL_PID
    || id == IDS_COL_CPU
    || id == IDS_COL_CPUTIME
    || id == IDS_COL_MEMUSAGE
    || id == IDS_COL_MEMUSAGEDIFF
    || id == IDS_COL_PAGEFAULTS
    || id == IDS_COL_PAGEFAULTSDIFF
    || id == IDS_COL_COMMITCHARGE
    || id == IDS_COL_PAGEDPOOL
    || id == IDS_COL_NONPAGEDPOOL
    || id == IDS_COL_BASEPRIORITY
    || id == IDS_COL_HANDLECOUNT
    || id == IDS_COL_THREADCOUNT
    || id == IDS_COL_SESSIONID
    || id == IDS_COL_USERNAME
    || id == IDS_COL_TASKNAME
    || id == IDS_COL_TASKSTATUS
    || id == IDS_COL_TASKWINSTATION
    || id == IDS_COL_TASKDESKTOP
    || id == IDS_PRICHANGE
    || id == IDS_KILL
    || id == IDS_DEBUG
}

/// Looks up a numbered string resource in the French table.
pub fn resource(id: u32) -> (r: &'static str)
    ensures
        r == spec_resource(id),
{
    if id == IDS_PERFPAGETITLE {
        "Performances"
    } else if id == IDS_NETPAGETITLE {
        "Réseau"
    } else if id == IDS_RUNTITLE {
        "Exécuter"
    } else if id == IDS_RUNTEXT {
        "Tapez le nom d’un programme, dossier, document ou d’une ressource Internet, et Windows l’ouvrira pour vous."
    } else if id == IDS_APPTITLE || id == IDS_TASKMGR {
        "Gestionnaire des tâches Windows NT"
    } else if id == IDS_PROCPAGETITLE {
        "Processus"
    } else if id == IDS_TASKPAGETITLE {
        "Applications"
    } else if id == IDS_USERPAGETITLE {
        "Utilisateurs"
    } else if id == IDS_TASKMGRDISABLED {
        "Le Gestionnaire des tâches a été désactivé par votre administrateur."
    } else if id == IDS_WARNING {
        "Avertissement du Gestionnaire des tâches"
    } else if id == IDS_LOW {
        "Faible"
    } else if id == IDS_HIGH {
        "Élevée"
    } else if id == IDS_REALTIME {
        "Temps réel"
    } else if id == IDS_NORMAL {
        "Normale"
    } else if id == IDS_UNKNOWN {
        "Inconnu"
    } else if id == IDS_CANTSETAFFINITY {
        "L’opération n’a pas pu être terminée.\n\n"
    } else if id == IDS_CANTKILL {
        "Impossible de terminer le processus"
    } else if id == IDS_CANTDEBUG {
        "Impossible d’attacher le débogueur"
    } else if id == IDS_CANTCHANGEPRI {
        "Impossible de modifier la priorité"
    } else if id == IDS_FMTTASKS {
        "Applications : %d"
    } else if id == IDS_FMTPROCS {
        "Processus : %d"
    } else if id == IDS_FMTCPU {
        "Utilisation CPU : %d%%"
    } else if id == IDS_FMTMEM {
        "Utilisation mémoire : %dK / %dK"
    } else if id == IDS_INVALIDOPTION {
        "Option non valide"
    } else if id == IDS_NOAFFINITYMASK {
        "Le processus doit avoir une affinité avec au moins un processeur."
    } else if id == IDS_FMTCPUNUM {
        "CPU %d"
    } else if id == IDS_TOTALTIME {
        "CPU total"
    } else if id == IDS_KERNELTIME {
        "CPU noyau"
    } else if id == IDS_MEMUSAGE {
        "Utilisation mémoire"
    } else if id == IDS_COL_IMAGENAME {
        "Nom de l'image"
    } else if id == IDS_COL_PID {
        "PID"
    } else if id == IDS_COL_CPU {
        "CPU"
    } else if id == IDS_COL_CPUTIME {
        "Temps CPU"
    } else if id == IDS_COL_MEMUSAGE {
        "Utilisation mémoire"
    } else if id == IDS_COL_MEMUSAGEDIFF {
        "Delta mémoire"
    } else if id == IDS_COL_PAGEFAULTS {
        "Défauts de page"
    } else if id == IDS_COL_PAGEFAULTSDIFF {
        "Delta défauts de page"
    } else if id == IDS_COL_COMMITCHARGE {
        "Taille mémoire virtuelle"
    } else if id == IDS_COL_PAGEDPOOL {
        "Pool paginé"
    } else if id == IDS_COL_NONPAGEDPOOL {
        "Pool non paginé"
    } else if id == IDS_COL_BASEPRIORITY {
        "Priorité de base"
    } else if id == IDS_COL_HANDLECOUNT {
        "Handles"
    } else if id == IDS_COL_THREADCOUNT {
        "Threads"
    } else if id == IDS_COL_SESSIONID {
        "ID de session"
    } else if id == IDS_COL_USERNAME {
        "Nom d'utilisateur"
    } else if id == IDS_COL_TASKNAME {
        "Tâche"
    } else if id == IDS_COL_TASKSTATUS {
        "État"
    } else if id == IDS_COL_TASKWINSTATION {
        "Station Win"
    } else if id == IDS_COL_TASKDESKTOP {
        "Bureau"
    } else if id == IDS_PRICHANGE {
        "AVERTISSEMENT : la modification de la classe de priorité de ce processus peut entraîner des résultats indésirables, y compris une instabilité du système. Voulez-vous vraiment modifier la classe de priorité ?"
    } else if id == IDS_KILL {
        "AVERTISSEMENT : la fin d'un processus peut entraîner des résultats indésirables, notamment une perte de données et une instabilité du système. Le processus n'aura pas la possibilité d'enregistrer son état ou ses données avant d'être terminé. Voulez-vous vraiment terminer ce processus ?"
    } else if id == IDS_DEBUG {
        "AVERTISSEMENT : le débogage de ce processus peut entraîner une perte de données. Voulez-vous vraiment attacher le débogueur ?"
    } else {
        ""
    }
}

/// A resource of the French table is non-empty exactly when the table lists it.
pub proof fn lemma_resource_nonempty(id: u32)
    ensures
        spec_resource(id)@.len() > 0 <==> has_resource(id),
{
    if id == IDS_PERFPAGETITLE {
        reveal_strlit("Performances");
    } else if id == IDS_NETPAGETITLE {
        reveal_strlit("Réseau");
    } else if id == IDS_RUNTITLE {
        reveal_strlit("Exécuter");
    } else if id == IDS_RUNTEXT {
        reveal_strlit("Tapez le nom d’un programme, dossier, document ou d’une ressource Internet, et Windows l’ouvrira pour vous.");
    } else if id == IDS_APPTITLE || id == IDS_TASKMGR {
        reveal_strlit("Gestionnaire des tâches Windows NT");
    } else if id == IDS_PROCPAGETITLE {
        reveal_strlit("Processus");
    } else if id == IDS_TASKPAGETITLE {
        reveal_strlit("Applications");
    } else if id == IDS_USERPAGETITLE {
        reveal_strlit("Utilisateurs");
    } else if id == IDS_TASKMGRDISABLED {
        reveal_strlit("Le Gestionnaire des tâches a été désactivé par votre administrateur.");
    } else if id == IDS_WARNING {
        reveal_strlit("Avertissement du Gestionnaire des tâches");
    } else if id == IDS_LOW {
        reveal_strlit("Faible");
    } else if id == IDS_HIGH {
        reveal_strlit("Élevée");
    } else if id == IDS_REALTIME {
        reveal_strlit("Temps réel");
    } else if id == IDS_NORMAL {
        reveal_strlit("Normale");
    } else if id == IDS_UNKNOWN {
        reveal_strlit("Inconnu");
    } else if id == IDS_CANTSETAFFINITY {
        reveal_strlit("L’opération n’a pas pu être terminée.\n\n");
    } else if id == IDS_CANTKILL {
        reveal_strlit("Impossible de terminer le processus");
    } else if id == IDS_CANTDEBUG {
        reveal_strlit("Impossible d’attacher le débogueur");
    } else if id == IDS_CANTCHANGEPRI {
        reveal_strlit("Impossible de modifier la priorité");
    } else if id == IDS_FMTTASKS {
        reveal_strlit("Applications : %d");
    } else if id == IDS_FMTPROCS {
        reveal_strlit("Processus : %d");
    } else if id == IDS_FMTCPU {
        reveal_strlit("Utilisation CPU : %d%%");
    } else if id == IDS_FMTMEM {
        reveal_strlit("Utilisation mémoire : %dK / %dK");
    } else if id == IDS_INVALIDOPTION {
        reveal_strlit("Option non valide");
    } else if id == IDS_NOAFFINITYMASK {
        reveal_strlit("Le processus doit avoir une affinité avec au moins un processeur.");
    } else if id == IDS_FMTCPUNUM {
        reveal_strlit("CPU %d");
    } else if id == IDS_TOTALTIME {
        reveal_strlit("CPU total");
    } else if id == IDS_KERNELTIME {
        reveal_strlit("CPU noyau");
    } else if id == IDS_MEMUSAGE {
        reveal_strlit("Utilisation mémoire");
    } else if id == IDS_COL_IMAGENAME {
        reveal_strlit("Nom de l'image");
    } else if id == IDS_COL_PID {
        reveal_strlit("PID");
    } else if id == IDS_COL_CPU {
        reveal_strlit("CPU");
    } else if id == IDS_COL_CPUTIME {
        reveal_strlit("Temps CPU");
    } else if id == IDS_COL_MEMUSAGE {
        reveal_strlit("Utilisation mémoire");
    } else if id == IDS_COL_MEMUSAGEDIFF {
        reveal_strlit("Delta mémoire");
    } else if id == IDS_COL_PAGEFAULTS {
        reveal_strlit("Défauts de page");
    } else if id == IDS_COL_PAGEFAULTSDIFF {
        reveal_strlit("Delta défauts de page");
    } else if id == IDS_COL_COMMITCHARGE {
        reveal_strlit("Taille mémoire virtuelle");
    } else if id == IDS_COL_PAGEDPOOL {
        reveal_strlit("Pool paginé");
    } else if id == IDS_COL_NONPAGEDPOOL {
        reveal_strlit("Pool non paginé");
    } else if id == IDS_COL_BASEPRIORITY {
        reveal_strlit("Priorité de base");
    } else if id == IDS_COL_HANDLECOUNT {
        reveal_strlit("Handles");
    } else if id == IDS_COL_THREADCOUNT {
        reveal_strlit("Threads");
    } else if id == IDS_COL_SESSIONID {
        reveal_strlit("ID de session");
    } else if id == IDS_COL_USERNAME {
        reveal_strlit("Nom d'utilisateur");
    } else if id == IDS_COL_TASKNAME {
        reveal_strlit("Tâche");
    } else if id == IDS_COL_TASKSTATUS {
        reveal_strlit("État");
    } else if id == IDS_COL_TASKWINSTATION {
        reveal_strlit("Station Win");
    } else if id == IDS_COL_TASKDESKTOP {
        reveal_strlit("Bureau");
    } else if id == IDS_PRICHANGE {
        reveal_strlit("AVERTISSEMENT : la modification de la classe de priorité de ce processus peut entraîner des résultats indésirables, y compris une instabilité du système. Voulez-vous vraiment modifier la classe de priorité ?");
    } else if id == IDS_KILL {
        reveal_strlit("AVERTISSEMENT : la fin d'un processus peut entraîner des résultats indésirables, notamment une perte de données et une instabilité du système. Le processus n'aura pas la possibilité d'enregistrer son état ou ses données avant d'être terminé. Voulez-vous vraiment terminer ce processus ?");
    } else if id == IDS_DEBUG {
        reveal_strlit("AVERTISSEMENT : le débogage de ce processus peut entraîner une perte de données. Voulez-vous vraiment attacher le débogueur ?");
    } else {
        reveal_strlit("");
    }
}

/// The French string of a text key.
pub open spec fn spec_text(key: TextKey) -> &'static str {
    match key {
        TextKey::File => "&Fichier",
        TextKey::Options => "&Options",
        TextKey::View => "&Affichage",
        TextKey::Windows => "&Fenêtres",
        TextKey::Help => "&Aide",
        TextKey::UpdateSpeed => "&Vitesse de mise à jour",
        TextKey::CpuHistory => "&Historique CPU",
        TextKey::NewTaskMenu => "&Exécuter...",
        TextKey::NewTaskButton => "&Exécuter...",
        TextKey::ExitTaskManager => "&Quitter le Gestionnaire des tâches",
        TextKey::AlwaysOnTop => "&Toujours visible",
        TextKey::MinimizeOnUse => "&Réduire après utilisation",
        TextKey::Confirmations => "&Confirmations",
        TextKey::HideWhenMinimized => "&Masquer lors de la réduction",
        TextKey::RefreshNow => "&Actualiser",
        TextKey::High => "&Élevée",
        TextKey::Normal => "&Normale",
        TextKey::Low => "&Faible",
        TextKey::Paused => "&Suspendu",
        TextKey::LargeIcons => "&Grandes icônes",
        TextKey::SmallIcons => "&Petites icônes",
        TextKey::Details => "&Détails",
        TextKey::TileHorizontally => "Mosaïque &horizontale",
        TextKey::TileVertically => "Mosaïque &verticale",
        TextKey::Minimize => "&Réduire",
        TextKey::Maximize => "Ma&ximiser",
        TextKey::Cascade => "&Cascade",
        TextKey::BringToFront => "&Mettre au premier plan",
        TextKey::HelpTopics => "&Rubriques d'aide du Gestionnaire des tâches",
        TextKey::AboutTaskManager => "&À propos du Gestionnaire des tâches",
        TextKey::OneGraphAllCpus => "Un graphique, &tous les CPU",
        TextKey::OneGraphPerCpu => "Un graphique &par CPU",
        TextKey::SelectColumnsMenu => "Choisir les colonnes...",
        TextKey::SelectColumnsTitle => "Choisir les colonnes",
        TextKey::SelectProcessColumnsDescription => "Sélectionnez les colonnes à afficher dans l'onglet Processus du Gestionnaire des tâches.",
        TextKey::ShowKernelTimes => "Afficher les temps &noyau",
        TextKey::RestoreTaskManager => "&Restaurer le Gestionnaire des tâches",
        TextKey::EndProcess => "&Terminer le processus",
        TextKey::EndProcessTree => en_us::spec_text(key),
        TextKey::OpenFileLocation => en_us::spec_text(key),
        TextKey::Debug => "&Déboguer",
        TextKey::SetPriority => "Définir la &priorité",
        TextKey::Realtime => "&Temps réel",
        TextKey::AboveNormal => en_us::spec_text(key),
        TextKey::BelowNormal => en_us::spec_text(key),
        TextKey::SetAffinity => "Définir l'&affinité...",
        TextKey::SwitchTo => "&Basculer vers",
        TextKey::EndTask => "&Fin de tâche",
        TextKey::GoToProcess => "&Aller au processus",
        TextKey::Disconnect => "&Déconnecter",
        TextKey::Logoff => "&Fermer la session",
        TextKey::SendMessage => "&Envoyer un message...",
        TextKey::SendMessageTitle => "Envoyer un message",
        TextKey::TaskManager => "Gestionnaire des tâches",
        TextKey::Handles => "Handles",
        TextKey::Threads => "Threads",
        TextKey::ProcessesLabel => "Processus",
        TextKey::CpuUsageHistory => "Historique d'utilisation CPU",
        TextKey::CpuUsage => "Utilisation CPU",
        TextKey::MemUsage => "Utilisation mémoire",
        TextKey::MemoryUsageHistory => "Historique d'utilisation mémoire",
        TextKey::PhysicalMemoryK => "Mémoire physique (K)",
        TextKey::CommitChargeK => "Mémoire validée (K)",
        TextKey::KernelMemoryK => "Mémoire noyau (K)",
        TextKey::Totals => "Totaux",
        TextKey::Total => "Total",
        TextKey::Available => "Disponible",
        TextKey::FileCache => "Cache fichiers",
        TextKey::Paged => "Paginé",
        TextKey::Nonpaged => "Non paginé",
        TextKey::Limit => "Limite",
        TextKey::Peak => "Pic",
        TextKey::NoActiveNetworkAdaptersFound => "Aucun adaptateur réseau actif trouvé.",
        TextKey::OkButton => "OK",
        TextKey::Cancel => "Annuler",
        TextKey::ImageName => "Nom de l'image",
        TextKey::PidProcessIdentifier => "PID (identificateur de processus)",
        TextKey::UserName => "Nom d'utilisateur",
        TextKey::SessionId => "ID de session",
        TextKey::CpuTime => "Temps CPU",
        TextKey::MemoryUsage => "Utilisation mémoire",
        TextKey::MemoryUsageDelta => "Delta d'utilisation mémoire",
        TextKey::PageFaults => "Défauts de page",
        TextKey::PageFaultsDelta => "Delta des défauts de page",
        TextKey::VirtualMemorySize => "Taille de la mémoire virtuelle",
        TextKey::PagedPool => "Pool paginé",
        TextKey::NonPagedPool => "Pool non paginé",
        TextKey::BasePriority => "Priorité de base",
        TextKey::HandleCount => "Nombre de handles",
        TextKey::ThreadCount => "Nombre de threads",
        TextKey::ProcessorAffinity => "Affinité du processeur",
        TextKey::Processors => "Processeurs",
        TextKey::ProcessorAffinityDescription => "Le parametre d'affinite du processeur determine sur quels CPU le processus peut s'executer.",
        TextKey::MessageTitleLabel => "Titre du message :",
        TextKey::MessageLabel => "Message :",
        TextKey::ShowFullAccountName => "Afficher le nom complet du compte",
        TextKey::User => "Utilisateur",
        TextKey::Status => "État",
        TextKey::ClientName => "Nom du client",
        TextKey::Session => "Session",
        TextKey::Adapter => "Adaptateur",
        TextKey::NetworkUtilization => "Utilisation réseau",
        TextKey::LinkSpeed => "Vitesse du lien",
        TextKey::State => "État",
        TextKey::BytesSent => "Octets envoyés",
        TextKey::BytesReceived => "Octets reçus",
        TextKey::BytesTotal => "Octets au total",
        TextKey::Connected => "Connecté",
        TextKey::Disconnected => "Déconnecté",
        TextKey::Connecting => "Connexion",
        TextKey::Disconnecting => "Déconnexion",
        TextKey::HardwareMissing => "Matériel manquant",
        TextKey::HardwareDisabled => "Matériel désactivé",
        TextKey::HardwareMalfunction => "Dysfonctionnement matériel",
        TextKey::Unknown => "Inconnu",
        TextKey::Active => "Actif",
        TextKey::ConnectQuery => "Interrogation de connexion",
        TextKey::Shadow => "Shadow",
        TextKey::Idle => "Inactif",
        TextKey::Listening => "En écoute",
        TextKey::Reset => "Réinitialiser",
        TextKey::Down => "Hors service",
        TextKey::Init => "Initialisation",
        TextKey::Bitness32Suffix => "(32 bits)",
        TextKey::NotResponding => "Ne repond pas",
        TextKey::Running => "En cours d'execution",
        TextKey::MessageCouldNotBeSent => "Le message n'a pas pu etre envoye.",
        TextKey::UnableToOpenFileLocation => en_us::spec_text(key),
        TextKey::KillProcessTreePrompt => en_us::spec_text(key),
        TextKey::KillProcessTreeFailed => en_us::spec_text(key),
        TextKey::KillProcessTreeFailedBody => en_us::spec_text(key),
        TextKey::ConfirmLogoffSelectedUsers => "Voulez-vous vraiment fermer la session des utilisateurs selectionnes ?",
        TextKey::ConfirmDisconnectSelectedUsers => "Voulez-vous vraiment deconnecter les utilisateurs selectionnes ?",
        TextKey::SelectedUserCouldNotBeLoggedOff => "Impossible de fermer la session de l'utilisateur selectionne.",
        TextKey::SelectedUserCouldNotBeDisconnected => "Impossible de deconnecter l'utilisateur selectionne.",
        TextKey::Win32ErrorPrefix => "Erreur Win32 :",
        TextKey::Recv => en_us::spec_text(key),
        TextKey::Sent => en_us::spec_text(key),
        TextKey::Tasks => en_us::spec_text(key),
        TextKey::Processes => en_us::spec_text(key),
        TextKey::Users => en_us::spec_text(key),
        TextKey::NoTitle => en_us::spec_text(key),
    }
}

/// Looks up a text key in the French table.
pub fn text(key: TextKey) -> (r: &'static str)
    ensures
        r == spec_text(key),
{
    match key {
        TextKey::File => "&Fichier",
        TextKey::Options => "&Options",
        TextKey::View => "&Affichage",
        TextKey::Windows => "&Fenêtres",
        TextKey::Help => "&Aide",
        TextKey::UpdateSpeed => "&Vitesse de mise à jour",
        TextKey::CpuHistory => "&Historique CPU",
        TextKey::NewTaskMenu => "&Exécuter...",
        TextKey::NewTaskButton => "&Exécuter...",
        TextKey::ExitTaskManager => "&Quitter le Gestionnaire des tâches",
        TextKey::AlwaysOnTop => "&Toujours visible",
        TextKey::MinimizeOnUse => "&Réduire après utilisation",
        TextKey::Confirmations => "&Confirmations",
        TextKey::HideWhenMinimized => "&Masquer lors de la réduction",
        TextKey::RefreshNow => "&Actualiser",
        TextKey::High => "&Élevée",
        TextKey::Normal => "&Normale",
        TextKey::Low => "&Faible",
        TextKey::Paused => "&Suspendu",
        TextKey::LargeIcons => "&Grandes icônes",
        TextKey::SmallIcons => "&Petites icônes",
        TextKey::Details => "&Détails",
        TextKey::TileHorizontally => "Mosaïque &horizontale",
        TextKey::TileVertically => "Mosaïque &verticale",
        TextKey::Minimize => "&Réduire",
        TextKey::Maximize => "Ma&ximiser",
        TextKey::Cascade => "&Cascade",
        TextKey::BringToFront => "&Mettre au premier plan",
        TextKey::HelpTopics => "&Rubriques d'aide du Gestionnaire des tâches",
        TextKey::AboutTaskManager => "&À propos du Gestionnaire des tâches",
        TextKey::OneGraphAllCpus => "Un graphique, &tous les CPU",
        TextKey::OneGraphPerCpu => "Un graphique &par CPU",
        TextKey::SelectColumnsMenu => "Choisir les colonnes...",
        TextKey::SelectColumnsTitle => "Choisir les colonnes",
        TextKey::SelectProcessColumnsDescription => "Sélectionnez les colonnes à afficher dans l'onglet Processus du Gestionnaire des tâches.",
        TextKey::ShowKernelTimes => "Afficher les temps &noyau",
        TextKey::RestoreTaskManager => "&Restaurer le Gestionnaire des tâches",
        TextKey::EndProcess => "&Terminer le processus",
        TextKey::EndProcessTree => en_us::text(key),
        TextKey::OpenFileLocation => en_us::text(key),
        TextKey::Debug => "&Déboguer",
        TextKey::SetPriority => "Définir la &priorité",
        TextKey::Realtime => "&Temps réel",
        TextKey::AboveNormal => en_us::text(key),
        TextKey::BelowNormal => en_us::text(key),
        TextKey::SetAffinity => "Définir l'&affinité...",
        TextKey::SwitchTo => "&Basculer vers",
        TextKey::EndTask => "&Fin de tâche",
        TextKey::GoToProcess => "&Aller au processus",
        TextKey::Disconnect => "&Déconnecter",
        TextKey::Logoff => "&Fermer la session",
        TextKey::SendMessage => "&Envoyer un message...",
        TextKey::SendMessageTitle => "Envoyer un message",
        TextKey::TaskManager => "Gestionnaire des tâches",
        TextKey::Handles => "Handles",
        TextKey::Threads => "Threads",
        TextKey::ProcessesLabel => "Processus",
        TextKey::CpuUsageHistory => "Historique d'utilisation CPU",
        TextKey::CpuUsage => "Utilisation CPU",
        TextKey::MemUsage => "Utilisation mémoire",
        TextKey::MemoryUsageHistory => "Historique d'utilisation mémoire",
        TextKey::PhysicalMemoryK => "Mémoire physique (K)",
        TextKey::CommitChargeK => "Mémoire validée (K)",
        TextKey::KernelMemoryK => "Mémoire noyau (K)",
        TextKey::Totals => "Totaux",
        TextKey::Total => "Total",
        TextKey::Available => "Disponible",
        TextKey::FileCache => "Cache fichiers",
        TextKey::Paged => "Paginé",
        TextKey::Nonpaged => "Non paginé",
        TextKey::Limit => "Limite",
        TextKey::Peak => "Pic",
        TextKey::NoActiveNetworkAdaptersFound => "Aucun adaptateur réseau actif trouvé.",
        TextKey::OkButton => "OK",
        TextKey::Cancel => "Annuler",
        TextKey::ImageName => "Nom de l'image",
        TextKey::PidProcessIdentifier => "PID (identificateur de processus)",
        TextKey::UserName => "Nom d'utilisateur",
        TextKey::SessionId => "ID de session",
        TextKey::CpuTime => "Temps CPU",
        TextKey::MemoryUsage => "Utilisation mémoire",
        TextKey::MemoryUsageDelta => "Delta d'utilisation mémoire",
        TextKey::PageFaults => "Défauts de page",
        TextKey::PageFaultsDelta => "Delta des défauts de page",
        TextKey::VirtualMemorySize => "Taille de la mémoire virtuelle",
        TextKey::PagedPool => "Pool paginé",
        TextKey::NonPagedPool => "Pool non paginé",
        TextKey::BasePriority => "Priorité de base",
        TextKey::HandleCount => "Nombre de handles",
        TextKey::ThreadCount => "Nombre de threads",
        TextKey::ProcessorAffinity => "Affinité du processeur",
        TextKey::Processors => "Processeurs",
        TextKey::ProcessorAffinityDescription => "Le parametre d'affinite du processeur determine sur quels CPU le processus peut s'executer.",
        TextKey::MessageTitleLabel => "Titre du message :",
        TextKey::MessageLabel => "Message :",
        TextKey::ShowFullAccountName => "Afficher le nom complet du compte",
        TextKey::User => "Utilisateur",
        TextKey::Status => "État",
        TextKey::ClientName => "Nom du client",
        TextKey::Session => "Session",
        TextKey::Adapter => "Adaptateur",
        TextKey::NetworkUtilization => "Utilisation réseau",
        TextKey::LinkSpeed => "Vitesse du lien",
        TextKey::State => "État",
        TextKey::BytesSent => "Octets envoyés",
        TextKey::BytesReceived => "Octets reçus",
        TextKey::BytesTotal => "Octets au total",
        TextKey::Connected => "Connecté",
        TextKey::Disconnected => "Déconnecté",
        TextKey::Connecting => "Connexion",
        TextKey::Disconnecting => "Déconnexion",
        TextKey::HardwareMissing => "Matériel manquant",
        TextKey::HardwareDisabled => "Matériel désactivé",
        TextKey::HardwareMalfunction => "Dysfonctionnement matériel",
        TextKey::Unknown => "Inconnu",
        TextKey::Active => "Actif",
        TextKey::ConnectQuery => "Interrogation de connexion",
        TextKey::Shadow => "Shadow",
        TextKey::Idle => "Inactif",
        TextKey::Listening => "En écoute",
        TextKey::Reset => "Réinitialiser",
        TextKey::Down => "Hors service",
        TextKey::Init => "Initialisation",
        TextKey::Bitness32Suffix => "(32 bits)",
        TextKey::NotResponding => "Ne repond pas",
        TextKey::Running => "En cours d'execution",
        TextKey::MessageCouldNotBeSent => "Le message n'a pas pu etre envoye.",
        TextKey::UnableToOpenFileLocation => en_us::text(key),
        TextKey::KillProcessTreePrompt => en_us::text(key),
        TextKey::KillProcessTreeFailed => en_us::text(key),
        TextKey::KillProcessTreeFailedBody => en_us::text(key),
        TextKey::ConfirmLogoffSelectedUsers => "Voulez-vous vraiment fermer la session des utilisateurs selectionnes ?",
        TextKey::ConfirmDisconnectSelectedUsers => "Voulez-vous vraiment deconnecter les utilisateurs selectionnes ?",
        TextKey::SelectedUserCouldNotBeLoggedOff => "Impossible de fermer la session de l'utilisateur selectionne.",
        TextKey::SelectedUserCouldNotBeDisconnected => "Impossible de deconnecter l'utilisateur selectionne.",
        TextKey::Win32ErrorPrefix => "Erreur Win32 :",
        TextKey::Recv => en_us::text(key),
        TextKey::Sent => en_us::text(key),
        TextKey::Tasks => en_us::text(key),
        TextKey::Processes => en_us::text(key),
        TextKey::Users => en_us::text(key),
        TextKey::NoTitle => en_us::text(key),
    }
}

/// Every text key has a non-empty French string.
pub proof fn lemma_text_nonempty(key: TextKey)
    ensures
        spec_text(key)@.len() > 0,
{
    en_us::lemma_text_nonempty(key);
    match key {
        TextKey::File => { reveal_strlit("&Fichier"); }
        TextKey::Options => { reveal_strlit("&Options"); }
        TextKey::View => { reveal_strlit("&Affichage"); }
        TextKey::Windows => { reveal_strlit("&Fenêtres"); }
        TextKey::Help => { reveal_strlit("&Aide"); }
        TextKey::UpdateSpeed => { reveal_strlit("&Vitesse de mise à jour"); }
        TextKey::CpuHistory => { reveal_strlit("&Historique CPU"); }
        TextKey::NewTaskMenu => { reveal_strlit("&Exécuter..."); }
        TextKey::NewTaskButton => { reveal_strlit("&Exécuter..."); }
        TextKey::ExitTaskManager => { reveal_strlit("&Quitter le Gestionnaire des tâches"); }
        TextKey::AlwaysOnTop => { reveal_strlit("&Toujours visible"); }
        TextKey::MinimizeOnUse => { reveal_strlit("&Réduire après utilisation"); }
        TextKey::Confirmations => { reveal_strlit("&Confirmations"); }
        TextKey::HideWhenMinimized => { reveal_strlit("&Masquer lors de la réduction"); }
        TextKey::RefreshNow => { reveal_strlit("&Actualiser"); }
        TextKey::High => { reveal_strlit("&Élevée"); }
        TextKey::Normal => { reveal_strlit("&Normale"); }
        TextKey::Low => { reveal_strlit("&Faible"); }
        TextKey::Paused => { reveal_strlit("&Suspendu"); }
        TextKey::LargeIcons => { reveal_strlit("&Grandes icônes"); }
        TextKey::SmallIcons => { reveal_strlit("&Petites icônes"); }
        TextKey::Details => { reveal_strlit("&Détails"); }
        TextKey::TileHorizontally => { reveal_strlit("Mosaïque &horizontale"); }
        TextKey::TileVertically => { reveal_strlit("Mosaïque &verticale"); }
        TextKey::Minimize => { reveal_strlit("&Réduire"); }
        TextKey::Maximize => { reveal_strlit("Ma&ximiser"); }
        TextKey::Cascade => { reveal_strlit("&Cascade"); }
        TextKey::BringToFront => { reveal_strlit("&Mettre au premier plan"); }
        TextKey::HelpTopics => { reveal_strlit("&Rubriques d'aide du Gestionnaire des tâches"); }
        TextKey::AboutTaskManager => { reveal_strlit("&À propos du Gestionnaire des tâches"); }
        TextKey::OneGraphAllCpus => { reveal_strlit("Un graphique, &tous les CPU"); }
        TextKey::OneGraphPerCpu => { reveal_strlit("Un graphique &par CPU"); }
        TextKey::SelectColumnsMenu => { reveal_strlit("Choisir les colonnes..."); }
        TextKey::SelectColumnsTitle => { reveal_strlit("Choisir les colonnes"); }
        TextKey::SelectProcessColumnsDescription => { reveal_strlit("Sélectionnez les colonnes à afficher dans l'onglet Processus du Gestionnaire des tâches."); }
        TextKey::ShowKernelTimes => { reveal_strlit("Afficher les temps &noyau"); }
        TextKey::RestoreTaskManager => { reveal_strlit("&Restaurer le Gestionnaire des tâches"); }
        TextKey::EndProcess => { reveal_strlit("&Terminer le processus"); }
        TextKey::EndProcessTree => {}
        TextKey::OpenFileLocation => {}
        TextKey::Debug => { reveal_strlit("&Déboguer"); }
        TextKey::SetPriority => { reveal_strlit("Définir la &priorité"); }
        TextKey::Realtime => { reveal_strlit("&Temps réel"); }
        TextKey::AboveNormal => {}
        TextKey::BelowNormal => {}
        TextKey::SetAffinity => { reveal_strlit("Définir l'&affinité..."); }
        TextKey::SwitchTo => { reveal_strlit("&Basculer vers"); }
        TextKey::EndTask => { reveal_strlit("&Fin de tâche"); }
        TextKey::GoToProcess => { reveal_strlit("&Aller au processus"); }
        TextKey::Disconnect => { reveal_strlit("&Déconnecter"); }
        TextKey::Logoff => { reveal_strlit("&Fermer la session"); }
        TextKey::SendMessage => { reveal_strlit("&Envoyer un message..."); }
        TextKey::SendMessageTitle => { reveal_strlit("Envoyer un message"); }
        TextKey::TaskManager => { reveal_strlit("Gestionnaire des tâches"); }
        TextKey::Handles => { reveal_strlit("Handles"); }
        TextKey::Threads => { reveal_strlit("Threads"); }
        TextKey::ProcessesLabel => { reveal_strlit("Processus"); }
        TextKey::CpuUsageHistory => { reveal_strlit("Historique d'utilisation CPU"); }
        TextKey::CpuUsage => { reveal_strlit("Utilisation CPU"); }
        TextKey::MemUsage => { reveal_strlit("Utilisation mémoire"); }
        TextKey::MemoryUsageHistory => { reveal_strlit("Historique d'utilisation mémoire"); }
        TextKey::PhysicalMemoryK => { reveal_strlit("Mémoire physique (K)"); }
        TextKey::CommitChargeK => { reveal_strlit("Mémoire validée (K)"); }
        TextKey::KernelMemoryK => { reveal_strlit("Mémoire noyau (K)"); }
        TextKey::Totals => { reveal_strlit("Totaux"); }
        TextKey::Total => { reveal_strlit("Total"); }
        TextKey::Available => { reveal_strlit("Disponible"); }
        TextKey::FileCache => { reveal_strlit("Cache fichiers"); }
        TextKey::Paged => { reveal_strlit("Paginé"); }
        TextKey::Nonpaged => { reveal_strlit("Non paginé"); }
        TextKey::Limit => { reveal_strlit("Limite"); }
        TextKey::Peak => { reveal_strlit("Pic"); }
        TextKey::NoActiveNetworkAdaptersFound => { reveal_strlit("Aucun adaptateur réseau actif trouvé."); }
        TextKey::OkButton => { reveal_strlit("OK"); }
        TextKey::Cancel => { reveal_strlit("Annuler"); }
        TextKey::ImageName => { reveal_strlit("Nom de l'image"); }
        TextKey::PidProcessIdentifier => { reveal_strlit("PID (identificateur de processus)"); }
        TextKey::UserName => { reveal_strlit("Nom d'utilisateur"); }
        TextKey::SessionId => { reveal_strlit("ID de session"); }
        TextKey::CpuTime => { reveal_strlit("Temps CPU"); }
        TextKey::MemoryUsage => { reveal_strlit("Utilisation mémoire"); }
        TextKey::MemoryUsageDelta => { reveal_strlit("Delta d'utilisation mémoire"); }
        TextKey::PageFaults => { reveal_strlit("Défauts de page"); }
        TextKey::PageFaultsDelta => { reveal_strlit("Delta des défauts de page"); }
        TextKey::VirtualMemorySize => { reveal_strlit("Taille de la mémoire virtuelle"); }
        TextKey::PagedPool => { reveal_strlit("Pool paginé"); }
        TextKey::NonPagedPool => { reveal_strlit("Pool non paginé"); }
        TextKey::BasePriority => { reveal_strlit("Priorité de base"); }
        TextKey::HandleCount => { reveal_strlit("Nombre de handles"); }
        TextKey::ThreadCount => { reveal_strlit("Nombre de threads"); }
        TextKey::ProcessorAffinity => { reveal_strlit("Affinité du processeur"); }
        TextKey::Processors => { reveal_strlit("Processeurs"); }
        TextKey::ProcessorAffinityDescription => { reveal_strlit("Le parametre d'affinite du processeur determine sur quels CPU le processus peut s'executer."); }
        TextKey::MessageTitleLabel => { reveal_strlit("Titre du message :"); }
        TextKey::MessageLabel => { reveal_strlit("Message :"); }
        TextKey::ShowFullAccountName => { reveal_strlit("Afficher le nom complet du compte"); }
        TextKey::User => { reveal_strlit("Utilisateur"); }
        TextKey::Status => { reveal_strlit("État"); }
        TextKey::ClientName => { reveal_strlit("Nom du client"); }
        TextKey::Session => { reveal_strlit("Session"); }
        TextKey::Adapter => { reveal_strlit("Adaptateur"); }
        TextKey::NetworkUtilization => { reveal_strlit("Utilisation réseau"); }
        TextKey::LinkSpeed => { reveal_strlit("Vitesse du lien"); }
        TextKey::State => { reveal_strlit("État"); }
        TextKey::BytesSent => { reveal_strlit("Octets envoyés"); }
        TextKey::BytesReceived => { reveal_strlit("Octets reçus"); }
        TextKey::BytesTotal => { reveal_strlit("Octets au total"); }
        TextKey::Connected => { reveal_strlit("Connecté"); }
        TextKey::Disconnected => { reveal_strlit("Déconnecté"); }
        TextKey::Connecting => { reveal_strlit("Connexion"); }
        TextKey::Disconnecting => { reveal_strlit("Déconnexion"); }
        TextKey::HardwareMissing => { reveal_strlit("Matériel manquant"); }
        TextKey::HardwareDisabled => { reveal_strlit("Matériel désactivé"); }
        TextKey::HardwareMalfunction => { reveal_strlit("Dysfonctionnement matériel"); }
        TextKey::Unknown => { reveal_strlit("Inconnu"); }
        TextKey::Active => { reveal_strlit("Actif"); }
        TextKey::ConnectQuery => { reveal_strlit("Interrogation de connexion"); }
        TextKey::Shadow => { reveal_strlit("Shadow"); }
        TextKey::Idle => { reveal_strlit("Inactif"); }
        TextKey::Listening => { reveal_strlit("En écoute"); }
        TextKey::Reset => { reveal_strlit("Réinitialiser"); }
        TextKey::Down => { reveal_strlit("Hors service"); }
        TextKey::Init => { reveal_strlit("Initialisation"); }
        TextKey::Bitness32Suffix => { reveal_strlit("(32 bits)"); }
        TextKey::NotResponding => { reveal_strlit("Ne repond pas"); }
        TextKey::Running => { reveal_strlit("En cours d'execution"); }
        TextKey::MessageCouldNotBeSent => { reveal_strlit("Le message n'a pas pu etre envoye."); }
        TextKey::UnableToOpenFileLocation => {}
        TextKey::KillProcessTreePrompt => {}
        TextKey::KillProcessTreeFailed => {}
        TextKey::KillProcessTreeFailedBody => {}
        TextKey::ConfirmLogoffSelectedUsers => { reveal_strlit("Voulez-vous vraiment fermer la session des utilisateurs selectionnes ?"); }
        TextKey::ConfirmDisconnectSelectedUsers => { reveal_strlit("Voulez-vous vraiment deconnecter les utilisateurs selectionnes ?"); }
        TextKey::SelectedUserCouldNotBeLoggedOff => { reveal_strlit("Impossible de fermer la session de l'utilisateur selectionne."); }
        TextKey::SelectedUserCouldNotBeDisconnected => { reveal_strlit("Impossible de deconnecter l'utilisateur selectionne."); }
        TextKey::Win32ErrorPrefix => { reveal_strlit("Erreur Win32 :"); }
        TextKey::Recv => {}
        TextKey::Sent => {}
        TextKey::Tasks => {}
        TextKey::Processes => {}
        TextKey::Users => {}
        TextKey::NoTitle => {}
    }
}

} // verus!
