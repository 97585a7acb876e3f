//! The names of the tools that the model may call.

use vstd::prelude::*;
use vstd::string::*;

verus! {

/// A tool that the model may call.
#[derive(Debug, Clone, Copy, PartialEq, Eq, Structural)]
pub enum FunctionName {
    CreateFile,
    ApplyPatch,
    ReplaceTextForWholeFile,
    ReadRegionContent,
    GetWorkingDirectoryContent,
}

/// The name under which a tool is offered.
pub open spec fn offered_name(function: FunctionName) -> Seq<char> {
    match function {
        FunctionName::CreateFile => "create_file"@,
        FunctionName::ApplyPatch => "apply_patch"@,
        FunctionName::ReplaceTextForWholeFile => "replace_text_for_whole_file"@,
        FunctionName::ReadRegionContent => "read_region_content"@,
        FunctionName::GetWorkingDirectoryContent => "get_working_directory_content"@,
    }
}

impl FunctionName {
    /// The name under which the tool is offered.
    pub fn name(&self) -> (r: String)
        ensures
            r@ == offered_name(*self),
    {
        match self {
            FunctionName::CreateFile => "create_file".to_owned(),
            FunctionName::ApplyPatch => "apply_patch".to_owned(),
            FunctionName::ReplaceTextForWholeFile => "replace_text_for_whole_file".to_owned(),
            FunctionName::ReadRegionContent => "read_region_content".to_owned(),
            FunctionName::GetWorkingDirectoryContent => "get_working_directory_content".to_owned(),
        }
    }

    /// The tool that is offered under a name, if there is one.
    pub fn from_name(name: &str) -> (r: Option<FunctionName>)
        ensures
            match r {
                Some(function) => offered_name(function) == name@,
                None => forall|function: FunctionName| offered_name(function) != name@,
            },
    {
        let wanted = name.to_owned();
        if wanted == FunctionName::CreateFile.name() {
            Some(FunctionName::CreateFile)
        } else if wanted == FunctionName::ApplyPatch.name() {
            Some(FunctionName::ApplyPatch)
        } else if wanted == FunctionName::ReplaceTextForWholeFile.name() {
            Some(FunctionName::ReplaceTextForWholeFile)
        } else if wanted == FunctionName::ReadRegionContent.name() {
            Some(FunctionName::ReadRegionContent)
        } else if wanted == FunctionName::GetWorkingDirectoryContent.name() {
            Some(FunctionName::GetWorkingDirectoryContent)
        } else {
            None
        }
    }
}

} // verus!
