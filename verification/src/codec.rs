//! The stored forms of the model's enumerations: each is written by its
//! label and read back by the label, so that a read gives back what was
//! written; unknown text reads as the default the daemon assumes.
use vstd::prelude::*;
use crate::models::{
    lease_status_label, manager_label, resource_type_label, scope_label, task_status_label,
    ApprovalScope, LeaseStatus, PackageManager, ResourceType, TaskStatus,
};
use crate::text::{all_ascii, ascii_lower, lowercase_text, same_text, to_lowercase};

verus! {

/// The resource type named by a lower-cased stored text; unknown names read
/// as `Package`.
pub open spec fn resource_type_of_lower(l: Seq<char>) -> ResourceType {
    if l == "secret"@ {
        ResourceType::Secret
    } else if l == "package"@ {
        ResourceType::Package
    } else if l == "command"@ {
        ResourceType::Command
    } else if l == "system"@ {
        ResourceType::System
    } else {
        ResourceType::Package
    }
}

proof fn lemma_labels_lower(rt: ResourceType)
    ensures
        all_ascii(resource_type_label(rt)),
        resource_type_of_lower(ascii_lower(resource_type_label(rt))) == rt,
{
    reveal_strlit("Secret");
    reveal_strlit("Package");
    reveal_strlit("Command");
    reveal_strlit("System");
    reveal_strlit("secret");
    reveal_strlit("package");
    reveal_strlit("command");
    reveal_strlit("system");
    match rt {
        ResourceType::Secret => {
            assert(ascii_lower("Secret"@) =~= "secret"@);
        },
        ResourceType::Package => {
            assert(ascii_lower("Package"@) =~= "package"@);
            assert("package"@[0] != "secret"@[0]);
        },
        ResourceType::Command => {
            assert(ascii_lower("Command"@) =~= "command"@);
            assert("command"@[0] != "secret"@[0]);
            assert("command"@[0] != "package"@[0]);
        },
        ResourceType::System => {
            assert(ascii_lower("System"@) =~= "system"@);
            assert("system"@[1] != "secret"@[1]);
            assert("system"@[0] != "package"@[0]);
            assert("system"@[0] != "command"@[0]);
        },
    }
}

/// The resource type of a stored text, compared without regard to case;
/// unknown names read as `Package`. Reading a written label gives back the
/// resource type.
pub fn resource_type_from_stored(s: &str) -> (r: ResourceType)
    ensures
        r == resource_type_of_lower(lowercase_text(s@)),
        forall|rt: ResourceType| s@ == resource_type_label(rt) ==> r == rt,
{
    let l = to_lowercase(s);
    proof {
        assert forall|rt: ResourceType| s@ == resource_type_label(rt) implies resource_type_of_lower(
            l@,
        ) == rt by {
            lemma_labels_lower(rt);
        }
    }
    if same_text(l.as_str(), "secret") {
        ResourceType::Secret
    } else if same_text(l.as_str(), "package") {
        ResourceType::Package
    } else if same_text(l.as_str(), "command") {
        ResourceType::Command
    } else if same_text(l.as_str(), "system") {
        ResourceType::System
    } else {
        ResourceType::Package
    }
}

/// The scope named by a stored text; unknown names read as `Once`.
pub open spec fn scope_of_stored(s: Seq<char>) -> ApprovalScope {
    if s == "Once"@ {
        ApprovalScope::Once
    } else if s == "Task"@ {
        ApprovalScope::Task
    } else if s == "Permanent"@ {
        ApprovalScope::Permanent
    } else {
        ApprovalScope::Once
    }
}

/// The scope of a stored text; unknown names read as `Once`. Reading a
/// written label gives back the scope.
pub fn scope_from_stored(s: &str) -> (r: ApprovalScope)
    ensures
        r == scope_of_stored(s@),
        forall|x: ApprovalScope| s@ == scope_label(x) ==> r == x,
{
    proof {
        reveal_strlit("Once");
        reveal_strlit("Task");
        reveal_strlit("Permanent");
        assert("Task"@[0] != "Once"@[0]);
        assert("Permanent"@[0] != "Once"@[0]);
        assert("Permanent"@[0] != "Task"@[0]);
    }
    if same_text(s, "Once") {
        ApprovalScope::Once
    } else if same_text(s, "Task") {
        ApprovalScope::Task
    } else if same_text(s, "Permanent") {
        ApprovalScope::Permanent
    } else {
        ApprovalScope::Once
    }
}

/// The task status named by a stored text; unknown names read as `Active`.
pub open spec fn task_status_of_stored(s: Seq<char>) -> TaskStatus {
    if s == "Active"@ {
        TaskStatus::Active
    } else if s == "Completed"@ {
        TaskStatus::Completed
    } else if s == "Expired"@ {
        TaskStatus::Expired
    } else {
        TaskStatus::Active
    }
}

/// The task status of a stored text; unknown names read as `Active`.
/// Reading a written label gives back the status.
pub fn task_status_from_stored(s: &str) -> (r: TaskStatus)
    ensures
        r == task_status_of_stored(s@),
        forall|x: TaskStatus| s@ == task_status_label(x) ==> r == x,
{
    proof {
        reveal_strlit("Active");
        reveal_strlit("Completed");
        reveal_strlit("Expired");
        assert("Completed"@[0] != "Active"@[0]);
        assert("Expired"@[0] != "Active"@[0]);
        assert("Expired"@[0] != "Completed"@[0]);
    }
    if same_text(s, "Active") {
        TaskStatus::Active
    } else if same_text(s, "Completed") {
        TaskStatus::Completed
    } else if same_text(s, "Expired") {
        TaskStatus::Expired
    } else {
        TaskStatus::Active
    }
}

/// The lease status named by a stored text; unknown names read as `Active`.
pub open spec fn lease_status_of_stored(s: Seq<char>) -> LeaseStatus {
    if s == "Active"@ {
        LeaseStatus::Active
    } else if s == "Expired"@ {
        LeaseStatus::Expired
    } else if s == "Revoked"@ {
        LeaseStatus::Revoked
    } else {
        LeaseStatus::Active
    }
}

/// The lease status of a stored text; unknown names read as `Active`.
/// Reading a written label gives back the status.
pub fn lease_status_from_stored(s: &str) -> (r: LeaseStatus)
    ensures
        r == lease_status_of_stored(s@),
        forall|x: LeaseStatus| s@ == lease_status_label(x) ==> r == x,
{
    proof {
        reveal_strlit("Active");
        reveal_strlit("Expired");
        reveal_strlit("Revoked");
        assert("Expired"@[0] != "Active"@[0]);
        assert("Revoked"@[0] != "Active"@[0]);
        assert("Revoked"@[0] != "Expired"@[0]);
    }
    if same_text(s, "Active") {
        LeaseStatus::Active
    } else if same_text(s, "Expired") {
        LeaseStatus::Expired
    } else if same_text(s, "Revoked") {
        LeaseStatus::Revoked
    } else {
        LeaseStatus::Active
    }
}

/// The package manager named by a stored text; unknown names read as `Pip`.
pub open spec fn manager_of_stored(s: Seq<char>) -> PackageManager {
    if s == "Pip"@ {
        PackageManager::Pip
    } else if s == "Npm"@ {
        PackageManager::Npm
    } else if s == "Brew"@ {
        PackageManager::Brew
    } else {
        PackageManager::Pip
    }
}

/// The package manager of a stored text; unknown names read as `Pip`.
/// Reading a written label gives back the manager.
pub fn manager_from_stored(s: &str) -> (r: PackageManager)
    ensures
        r == manager_of_stored(s@),
        forall|x: PackageManager| s@ == manager_label(x) ==> r == x,
{
    proof {
        reveal_strlit("Pip");
        reveal_strlit("Npm");
        reveal_strlit("Brew");
        assert("Npm"@[0] != "Pip"@[0]);
        assert("Brew"@[0] != "Pip"@[0]);
        assert("Brew"@[0] != "Npm"@[0]);
    }
    if same_text(s, "Pip") {
        PackageManager::Pip
    } else if same_text(s, "Npm") {
        PackageManager::Npm
    } else if same_text(s, "Brew") {
        PackageManager::Brew
    } else {
        PackageManager::Pip
    }
}

/// The scope an approver asks for, named without regard to case ("once",
/// "task" or "permanent"); any other name asks for none.
pub open spec fn scope_of_lower(l: Seq<char>) -> Option<ApprovalScope> {
    if l == "once"@ {
        Some(ApprovalScope::Once)
    } else if l == "task"@ {
        Some(ApprovalScope::Task)
    } else if l == "permanent"@ {
        Some(ApprovalScope::Permanent)
    } else {
        None
    }
}

/// The scope an approver asks for, if any.
pub fn override_scope(requested: Option<&str>) -> (r: Option<ApprovalScope>)
    ensures
        requested is None ==> r is None,
        requested matches Some(s) ==> r == scope_of_lower(lowercase_text(s@)),
        requested matches Some(s) ==> (all_ascii(s@) ==> r == scope_of_lower(ascii_lower(s@))),
{
    match requested {
        None => None,
        Some(s) => {
            let l = to_lowercase(s);
            if same_text(l.as_str(), "once") {
                Some(ApprovalScope::Once)
            } else if same_text(l.as_str(), "task") {
                Some(ApprovalScope::Task)
            } else if same_text(l.as_str(), "permanent") {
                Some(ApprovalScope::Permanent)
            } else {
                None
            }
        },
    }
}

} // verus!
