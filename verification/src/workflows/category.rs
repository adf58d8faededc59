//! The category of a workflow: that of the first tag that is a known keyword.

use vstd::prelude::*;
use crate::outside::{lowercase, to_lowercase};
use crate::text::same_text;
use crate::workflows::{Workflow, WorkflowCategory};

verus! {

/// The category that a lower-case keyword stands for.
pub open spec fn keyword_category(lowered: Seq<char>) -> Option<WorkflowCategory> {
    if lowered == "git"@ {
        Some(WorkflowCategory::Git)
    } else if lowered == "docker"@ {
        Some(WorkflowCategory::Docker)
    } else if lowered == "kubernetes"@ || lowered == "k8s"@ {
        Some(WorkflowCategory::Kubernetes)
    } else if lowered == "aws"@ {
        Some(WorkflowCategory::Aws)
    } else if lowered == "database"@ || lowered == "db"@ {
        Some(WorkflowCategory::Database)
    } else if lowered == "network"@ {
        Some(WorkflowCategory::Network)
    } else if lowered == "file"@ || lowered == "filesystem"@ {
        Some(WorkflowCategory::FileSystem)
    } else if lowered == "system"@ {
        Some(WorkflowCategory::System)
    } else {
        None
    }
}

/// The category of the first tag from position `i` on whose lower-case form
/// is a keyword; `Other` where there is none.
pub open spec fn category_from(tags: Seq<Seq<char>>, i: int) -> WorkflowCategory
    decreases tags.len() - i,
{
    if i < 0 || i >= tags.len() {
        WorkflowCategory::Other
    } else {
        match keyword_category(lowercase(tags[i])) {
            Some(c) => c,
            None => category_from(tags, i + 1),
        }
    }
}

/// The category that a list of tags gives a workflow.
pub open spec fn category_of(tags: Seq<Seq<char>>) -> WorkflowCategory {
    category_from(tags, 0)
}

/// The category that a lower-case keyword stands for.
pub fn category_of_keyword(lowered: &str) -> (c: Option<WorkflowCategory>)
    ensures
        c == keyword_category(lowered@),
{
    if same_text(lowered, "git") {
        Some(WorkflowCategory::Git)
    } else if same_text(lowered, "docker") {
        Some(WorkflowCategory::Docker)
    } else if same_text(lowered, "kubernetes") || same_text(lowered, "k8s") {
        Some(WorkflowCategory::Kubernetes)
    } else if same_text(lowered, "aws") {
        Some(WorkflowCategory::Aws)
    } else if same_text(lowered, "database") || same_text(lowered, "db") {
        Some(WorkflowCategory::Database)
    } else if same_text(lowered, "network") {
        Some(WorkflowCategory::Network)
    } else if same_text(lowered, "file") || same_text(lowered, "filesystem") {
        Some(WorkflowCategory::FileSystem)
    } else if same_text(lowered, "system") {
        Some(WorkflowCategory::System)
    } else {
        None
    }
}

impl Workflow {
    /// The category of the workflow: that of its first tag that is a known
    /// keyword, whatever the case of its letters; `Other` where no tag is.
    pub fn get_category(&self) -> (c: WorkflowCategory)
        ensures
            c == category_of(self@.tags),
    {
        let mut i: usize = 0;
        while i < self.tags.len()
            invariant
                i <= self.tags.len(),
                category_from(self@.tags, i as int) == category_of(self@.tags),
            decreases self.tags.len() - i,
        {
            let lowered = to_lowercase(self.tags[i].as_str());
            match category_of_keyword(lowered.as_str()) {
                Some(c) => {
                    return c;
                },
                None => {},
            }
            i += 1;
        }
        WorkflowCategory::Other
    }
}

} // verus!
