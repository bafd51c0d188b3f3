use vstd::prelude::*;

use crate::localization::{en_us, table_resource, table_text};
pub use crate::localization::UiLanguage;
use crate::resource::{IDM_ABOUT, IDM_AFFINITY, IDM_ALLCPUS, IDM_ALWAYSONTOP, IDM_CONFIRMATIONS, IDM_DETAILS, IDM_EXIT, IDM_HELP, IDM_HIGH, IDM_KERNELTIMES, IDM_LARGEICONS, IDM_LOW, IDM_MINIMIZEONUSE, IDM_MULTIGRAPH, IDM_NORMAL, IDM_PAUSED, IDM_PROCCOLS, IDM_PROC_DEBUG, IDM_PROC_ENDTREE, IDM_PROC_TERMINATE, IDM_REFRESH, IDM_RUN, IDM_SMALLICONS, IDM_TASK_BRINGTOFRONT, IDM_TASK_CASCADE, IDM_TASK_MAXIMIZE, IDM_TASK_MINIMIZE, IDM_TASK_TILEHORZ, IDM_TASK_TILEVERT};
use crate::text_key::TextKey;

verus! {

/// The numbered string shown in `language`: its own table first, English when that is empty.
pub open spec fn spec_localized_string(language: UiLanguage, id: u32) -> Option<&'static str> {
    if table_resource(language, id)@.len() > 0 {
        Some(table_resource(language, id))
    } else if en_us::spec_resource(id)@.len() > 0 {
        Some(en_us::spec_resource(id))
    } else {
        None
    }
}

/// Looks up a numbered string in `language`, falling back to English so that the
/// interface always has a stable text when a language lacks an entry.
pub fn localized_string(language: UiLanguage, id: u32) -> (r: Option<&'static str>)
    ensures
        r == spec_localized_string(language, id),
{
    let text = crate::localization::localized_string(language, id);
    match text {
        Some(text) => Some(text),
        None => {
            let fallback = en_us::resource(id);
            if fallback.is_empty() {
                None
            } else {
                Some(fallback)
            }
        },
    }
}

/// The text of a key in `language`.
pub fn text(language: UiLanguage, key: TextKey) -> (r: &'static str)
    ensures
        r == table_text(language, key),
{
    crate::localization::text(language, key)
}

/// A numbered string is found in some language exactly when the English table holds it
/// or the language's own table does, and what is found is never empty.
pub proof fn lemma_localized_string_found(language: UiLanguage, id: u32)
    ensures
        spec_localized_string(language, id) is Some <==> (table_resource(language, id)@.len() > 0
            || en_us::has_resource(id)),
        spec_localized_string(language, id) matches Some(s) ==> s@.len() > 0,
        en_us::has_resource(id) ==> spec_localized_string(language, id) is Some,
{
    en_us::lemma_resource_nonempty(id);
}

/// The status-bar help line of a menu command.
pub open spec fn spec_menu_status_help(command_id: u16) -> Option<&'static str> {
    if command_id == IDM_RUN {
        Some("Runs a new program")
    } else if command_id == IDM_EXIT {
        Some("Exits the Task Manager application")
    } else if command_id == IDM_ALWAYSONTOP {
        Some("Task Manager remains in front of all other windows unless minimized")
    } else if command_id == IDM_MINIMIZEONUSE {
        Some("Task Manager is minimized when a SwitchTo operation is performed")
    } else if command_id == IDM_LARGEICONS {
        Some("Displays tasks by using large icons")
    } else if command_id == IDM_SMALLICONS {
        Some("Displays tasks by using small icons")
    } else if command_id == IDM_DETAILS {
        Some("Displays information about each task")
    } else if command_id == IDM_ALLCPUS {
        Some("A single history graph shows total CPU usage")
    } else if command_id == IDM_MULTIGRAPH {
        Some("Each CPU has its own history graph")
    } else if command_id == IDM_ABOUT {
        Some("Displays program information, version number, and copyright")
    } else if command_id == IDM_HIGH {
        Some("Updates the display twice per second")
    } else if command_id == IDM_NORMAL {
        Some("Updates the display every two seconds")
    } else if command_id == IDM_LOW {
        Some("Updates the display every four seconds")
    } else if command_id == IDM_PAUSED {
        Some("Display does not automatically update")
    } else if command_id == IDM_CONFIRMATIONS {
        Some("Task Manager will prompt before modifying processes")
    } else if command_id == IDM_PROC_DEBUG {
        Some("Attaches the debugger to this process")
    } else if command_id == IDM_PROC_TERMINATE {
        Some("Removes the process from the system")
    } else if command_id == IDM_PROC_ENDTREE {
        Some("Removes the process and any child processes from the system")
    } else if command_id == IDM_HELP {
        Some("Displays Task Manager help topics")
    } else if command_id == IDM_PROCCOLS {
        Some("Select which columns will be visible on the Process page")
    } else if command_id == IDM_REFRESH {
        Some("Force Task Manager to update now, regardless of Update Speed setting")
    } else if command_id == IDM_AFFINITY {
        Some("Controls which processors the process will be allowed to run on")
    } else if command_id == IDM_KERNELTIMES {
        Some("Displays kernel timings on the CPU graphs in red.")
    } else if command_id == IDM_TASK_MINIMIZE {
        Some("Minimizes the windows")
    } else if command_id == IDM_TASK_MAXIMIZE {
        Some("Maximizes the windows")
    } else if command_id == IDM_TASK_CASCADE {
        Some("Cascades the windows diagonally on the desktop")
    } else if command_id == IDM_TASK_TILEHORZ {
        Some("Tiles the windows horizontally on the desktop")
    } else if command_id == IDM_TASK_TILEVERT {
        Some("Tiles the windows vertically on the desktop")
    } else if command_id == IDM_TASK_BRINGTOFRONT {
        Some("Brings the window front, but does not switch to it")
    } else {
        None
    }
}

/// The status-bar help line of a menu command, for the commands that have one.
pub fn menu_status_help(command_id: u16) -> (r: Option<&'static str>)
    ensures
        r == spec_menu_status_help(command_id),
{
    if command_id == IDM_RUN {
        Some("Runs a new program")
    } else if command_id == IDM_EXIT {
        Some("Exits the Task Manager application")
    } else if command_id == IDM_ALWAYSONTOP {
        Some("Task Manager remains in front of all other windows unless minimized")
    } else if command_id == IDM_MINIMIZEONUSE {
        Some("Task Manager is minimized when a SwitchTo operation is performed")
    } else if command_id == IDM_LARGEICONS {
        Some("Displays tasks by using large icons")
    } else if command_id == IDM_SMALLICONS {
        Some("Displays tasks by using small icons")
    } else if command_id == IDM_DETAILS {
        Some("Displays information about each task")
    } else if command_id == IDM_ALLCPUS {
        Some("A single history graph shows total CPU usage")
    } else if command_id == IDM_MULTIGRAPH {
        Some("Each CPU has its own history graph")
    } else if command_id == IDM_ABOUT {
        Some("Displays program information, version number, and copyright")
    } else if command_id == IDM_HIGH {
        Some("Updates the display twice per second")
    } else if command_id == IDM_NORMAL {
        Some("Updates the display every two seconds")
    } else if command_id == IDM_LOW {
        Some("Updates the display every four seconds")
    } else if command_id == IDM_PAUSED {
        Some("Display does not automatically update")
    } else if command_id == IDM_CONFIRMATIONS {
        Some("Task Manager will prompt before modifying processes")
    } else if command_id == IDM_PROC_DEBUG {
        Some("Attaches the debugger to this process")
    } else if command_id == IDM_PROC_TERMINATE {
        Some("Removes the process from the system")
    } else if command_id == IDM_PROC_ENDTREE {
        Some("Removes the process and any child processes from the system")
    } else if command_id == IDM_HELP {
        Some("Displays Task Manager help topics")
    } else if command_id == IDM_PROCCOLS {
        Some("Select which columns will be visible on the Process page")
    } else if command_id == IDM_REFRESH {
        Some("Force Task Manager to update now, regardless of Update Speed setting")
    } else if command_id == IDM_AFFINITY {
        Some("Controls which processors the process will be allowed to run on")
    } else if command_id == IDM_KERNELTIMES {
        Some("Displays kernel timings on the CPU graphs in red.")
    } else if command_id == IDM_TASK_MINIMIZE {
        Some("Minimizes the windows")
    } else if command_id == IDM_TASK_MAXIMIZE {
        Some("Maximizes the windows")
    } else if command_id == IDM_TASK_CASCADE {
        Some("Cascades the windows diagonally on the desktop")
    } else if command_id == IDM_TASK_TILEHORZ {
        Some("Tiles the windows horizontally on the desktop")
    } else if command_id == IDM_TASK_TILEVERT {
        Some("Tiles the windows vertically on the desktop")
    } else if command_id == IDM_TASK_BRINGTOFRONT {
        Some("Brings the window front, but does not switch to it")
    } else {
        None
    }
}

/// Every help line that exists is non-empty.
pub proof fn lemma_menu_status_help_nonempty(command_id: u16)
    ensures
        spec_menu_status_help(command_id) matches Some(s) ==> s@.len() > 0,
{
    if command_id == IDM_RUN {
        reveal_strlit("Runs a new program");
    } else if command_id == IDM_EXIT {
        reveal_strlit("Exits the Task Manager application");
    } else if command_id == IDM_ALWAYSONTOP {
        reveal_strlit("Task Manager remains in front of all other windows unless minimized");
    } else if command_id == IDM_MINIMIZEONUSE {
        reveal_strlit("Task Manager is minimized when a SwitchTo operation is performed");
    } else if command_id == IDM_LARGEICONS {
        reveal_strlit("Displays tasks by using large icons");
    } else if command_id == IDM_SMALLICONS {
        reveal_strlit("Displays tasks by using small icons");
    } else if command_id == IDM_DETAILS {
        reveal_strlit("Displays information about each task");
    } else if command_id == IDM_ALLCPUS {
        reveal_strlit("A single history graph shows total CPU usage");
    } else if command_id == IDM_MULTIGRAPH {
        reveal_strlit("Each CPU has its own history graph");
    } else if command_id == IDM_ABOUT {
        reveal_strlit("Displays program information, version number, and copyright");
    } else if command_id == IDM_HIGH {
        reveal_strlit("Updates the display twice per second");
    } else if command_id == IDM_NORMAL {
        reveal_strlit("Updates the display every two seconds");
    } else if command_id == IDM_LOW {
        reveal_strlit("Updates the display every four seconds");
    } else if command_id == IDM_PAUSED {
        reveal_strlit("Display does not automatically update");
    } else if command_id == IDM_CONFIRMATIONS {
        reveal_strlit("Task Manager will prompt before modifying processes");
    } else if command_id == IDM_PROC_DEBUG {
        reveal_strlit("Attaches the debugger to this process");
    } else if command_id == IDM_PROC_TERMINATE {
        reveal_strlit("Removes the process from the system");
    } else if command_id == IDM_PROC_ENDTREE {
        reveal_strlit("Removes the process and any child processes from the system");
    } else if command_id == IDM_HELP {
        reveal_strlit("Displays Task Manager help topics");
    } else if command_id == IDM_PROCCOLS {
        reveal_strlit("Select which columns will be visible on the Process page");
    } else if command_id == IDM_REFRESH {
        reveal_strlit("Force Task Manager to update now, regardless of Update Speed setting");
    } else if command_id == IDM_AFFINITY {
        reveal_strlit("Controls which processors the process will be allowed to run on");
    } else if command_id == IDM_KERNELTIMES {
        reveal_strlit("Displays kernel timings on the CPU graphs in red.");
    } else if command_id == IDM_TASK_MINIMIZE {
        reveal_strlit("Minimizes the windows");
    } else if command_id == IDM_TASK_MAXIMIZE {
        reveal_strlit("Maximizes the windows");
    } else if command_id == IDM_TASK_CASCADE {
        reveal_strlit("Cascades the windows diagonally on the desktop");
    } else if command_id == IDM_TASK_TILEHORZ {
        reveal_strlit("Tiles the windows horizontally on the desktop");
    } else if command_id == IDM_TASK_TILEVERT {
        reveal_strlit("Tiles the windows vertically on the desktop");
    } else if command_id == IDM_TASK_BRINGTOFRONT {
        reveal_strlit("Brings the window front, but does not switch to it");
    } else {
        
    }
}

} // verus!
