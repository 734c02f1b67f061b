//! The persisted row types and the argument records of the operations.
use vstd::prelude::*;
use crate::table::KeyedRow;

verus! {

/// A named extraction configuration.
pub struct Template {
    pub id: String,
    pub name: String,
    pub description: String,
    pub schema_json: String,
    pub extraction_rules: String,
    pub is_active: bool,
    pub created_at: String,
    pub updated_at: String,
}

/// One execution of a template (or of an ad hoc mode) against a document.
pub struct Run {
    pub id: String,
    pub mode: String,
    pub template_id: String,
    pub status: String,
    pub filename: String,
    pub mime_type: String,
    pub byte_size: u64,
    pub page_count: u32,
    pub timing_json: String,
    pub stats_json: String,
    pub error_message: String,
    pub created_at: String,
    pub started_at: String,
    pub completed_at: String,
    pub provider: Option<String>,
    pub document_key: Option<String>,
}

/// The large result artifacts of a run, keyed by the run's id.
pub struct RunPayload {
    pub run_id: String,
    pub md_results: String,
    pub layout_details_json: String,
    pub layout_visualization_json: String,
    pub extracted_fields_json: String,
    pub raw_provider_json: String,
}

/// The abstract value of a [`Template`] row.
pub struct TemplateView {
    pub id: Seq<char>,
    pub name: Seq<char>,
    pub description: Seq<char>,
    pub schema_json: Seq<char>,
    pub extraction_rules: Seq<char>,
    pub is_active: bool,
    pub created_at: Seq<char>,
    pub updated_at: Seq<char>,
}

/// The abstract value of a [`Run`] row.
pub struct RunView {
    pub id: Seq<char>,
    pub mode: Seq<char>,
    pub template_id: Seq<char>,
    pub status: Seq<char>,
    pub filename: Seq<char>,
    pub mime_type: Seq<char>,
    pub byte_size: u64,
    pub page_count: u32,
    pub timing_json: Seq<char>,
    pub stats_json: Seq<char>,
    pub error_message: Seq<char>,
    pub created_at: Seq<char>,
    pub started_at: Seq<char>,
    pub completed_at: Seq<char>,
    pub provider: Option<Seq<char>>,
    pub document_key: Option<Seq<char>>,
}

/// The abstract value of a [`RunPayload`] row.
pub struct RunPayloadView {
    pub run_id: Seq<char>,
    pub md_results: Seq<char>,
    pub layout_details_json: Seq<char>,
    pub layout_visualization_json: Seq<char>,
    pub extracted_fields_json: Seq<char>,
    pub raw_provider_json: Seq<char>,
}

/// The view of an optional string.
pub open spec fn opt_view(s: Option<String>) -> Option<Seq<char>> {
    match s {
        Some(v) => Some(v@),
        None => None,
    }
}

impl View for Template {
    type V = TemplateView;

    open spec fn view(&self) -> TemplateView {
        TemplateView {
            id: self.id@,
            name: self.name@,
            description: self.description@,
            schema_json: self.schema_json@,
            extraction_rules: self.extraction_rules@,
            is_active: self.is_active,
            created_at: self.created_at@,
            updated_at: self.updated_at@,
        }
    }
}

impl View for Run {
    type V = RunView;

    open spec fn view(&self) -> RunView {
        RunView {
            id: self.id@,
            mode: self.mode@,
            template_id: self.template_id@,
            status: self.status@,
            filename: self.filename@,
            mime_type: self.mime_type@,
            byte_size: self.byte_size,
            page_count: self.page_count,
            timing_json: self.timing_json@,
            stats_json: self.stats_json@,
            error_message: self.error_message@,
            created_at: self.created_at@,
            started_at: self.started_at@,
            completed_at: self.completed_at@,
            provider: opt_view(self.provider),
            document_key: opt_view(self.document_key),
        }
    }
}

impl View for RunPayload {
    type V = RunPayloadView;

    open spec fn view(&self) -> RunPayloadView {
        RunPayloadView {
            run_id: self.run_id@,
            md_results: self.md_results@,
            layout_details_json: self.layout_details_json@,
            layout_visualization_json: self.layout_visualization_json@,
            extracted_fields_json: self.extracted_fields_json@,
            raw_provider_json: self.raw_provider_json@,
        }
    }
}

impl KeyedRow for Template {
    open spec fn key_of(v: TemplateView) -> Seq<char> {
        v.id
    }

    fn key(&self) -> (r: &String) {
        &self.id
    }
}

impl KeyedRow for Run {
    open spec fn key_of(v: RunView) -> Seq<char> {
        v.id
    }

    fn key(&self) -> (r: &String) {
        &self.id
    }
}

impl KeyedRow for RunPayload {
    open spec fn key_of(v: RunPayloadView) -> Seq<char> {
        v.run_id
    }

    fn key(&self) -> (r: &String) {
        &self.run_id
    }
}

/// A copy of an optional string.
pub fn copy_opt(s: &Option<String>) -> (r: Option<String>)
    ensures
        r == *s,
{
    match s {
        Some(v) => Some(v.clone()),
        None => None,
    }
}

impl Run {
    /// A field-for-field copy of the row.
    pub fn copy(&self) -> (r: Run)
        ensures
            r == *self,
    {
        Run {
            id: self.id.clone(),
            mode: self.mode.clone(),
            template_id: self.template_id.clone(),
            status: self.status.clone(),
            filename: self.filename.clone(),
            mime_type: self.mime_type.clone(),
            byte_size: self.byte_size,
            page_count: self.page_count,
            timing_json: self.timing_json.clone(),
            stats_json: self.stats_json.clone(),
            error_message: self.error_message.clone(),
            created_at: self.created_at.clone(),
            started_at: self.started_at.clone(),
            completed_at: self.completed_at.clone(),
            provider: copy_opt(&self.provider),
            document_key: copy_opt(&self.document_key),
        }
    }
}

impl Template {
    /// A field-for-field copy of the row.
    pub fn copy(&self) -> (r: Template)
        ensures
            r == *self,
    {
        Template {
            id: self.id.clone(),
            name: self.name.clone(),
            description: self.description.clone(),
            schema_json: self.schema_json.clone(),
            extraction_rules: self.extraction_rules.clone(),
            is_active: self.is_active,
            created_at: self.created_at.clone(),
            updated_at: self.updated_at.clone(),
        }
    }
}

/// Arguments of the template upsert; an empty timestamp means "not supplied".
pub struct TemplateUpsertArgs {
    pub id: String,
    pub name: String,
    pub description: String,
    pub schema_json: String,
    pub extraction_rules: String,
    pub is_active: bool,
    pub created_at: String,
    pub updated_at: String,
}

/// Arguments of the template deactivation.
pub struct TemplateDeactivateArgs {
    pub id: String,
}

/// Arguments of run creation; an empty `created_at` means "not supplied".
pub struct RunCreateArgs {
    pub id: String,
    pub mode: String,
    pub template_id: String,
    pub status: String,
    pub provider: String,
    pub document_key: Option<String>,
    pub filename: String,
    pub mime_type: String,
    pub byte_size: u64,
    pub created_at: String,
}

/// Arguments of the transition to `processing`.
pub struct RunMarkProcessingArgs {
    pub id: String,
    pub started_at: String,
}

/// Arguments of payload storage.
pub struct RunStorePayloadArgs {
    pub id: String,
    pub md_results: String,
    pub layout_details_json: String,
    pub layout_visualization_json: String,
    pub extracted_fields_json: String,
    pub raw_provider_json: String,
    pub page_count: u32,
}

/// Arguments of the transition to `completed`.
pub struct RunMarkCompletedArgs {
    pub id: String,
    pub completed_at: String,
    pub timing_json: String,
    pub stats_json: String,
}

/// Arguments of the transition to `failed`.
pub struct RunMarkFailedArgs {
    pub id: String,
    pub completed_at: String,
    pub timing_json: String,
    pub error_message: String,
}

/// Arguments of run deletion.
pub struct RunDeleteArgs {
    pub id: String,
}

/// The statuses of the intended run lifecycle. A run's `status` field holds
/// the text of one of them by convention; the stores accept any text there.
#[derive(Clone, Copy, Debug, PartialEq, Eq, Structural)]
pub enum RunStatus {
    Pending,
    Processing,
    Completed,
    Failed,
}

impl RunStatus {
    /// The text stored for the status.
    pub open spec fn spec_text(self) -> Seq<char> {
        match self {
            RunStatus::Pending => "pending"@,
            RunStatus::Processing => "processing"@,
            RunStatus::Completed => "completed"@,
            RunStatus::Failed => "failed"@,
        }
    }

    pub fn as_str(&self) -> (r: &'static str)
        ensures
            r@ == self.spec_text(),
    {
        match self {
            RunStatus::Pending => "pending",
            RunStatus::Processing => "processing",
            RunStatus::Completed => "completed",
            RunStatus::Failed => "failed",
        }
    }

    pub fn to_text(&self) -> (r: String)
        ensures
            r@ == self.spec_text(),
    {
        self.as_str().to_string()
    }

    /// The status whose text is `s`, if there is one.
    pub fn from_text(s: &String) -> (r: Option<RunStatus>)
        ensures
            match r {
                Some(st) => st.spec_text() == s@,
                None => forall|st: RunStatus| #[trigger] st.spec_text() != s@,
            },
    {
        let all = [RunStatus::Pending, RunStatus::Processing, RunStatus::Completed, RunStatus::Failed];
        let mut i: usize = 0;
        while i < 4
            invariant
                i <= 4,
                all@ == seq![RunStatus::Pending, RunStatus::Processing, RunStatus::Completed, RunStatus::Failed],
                forall|j: int| 0 <= j < i ==> (#[trigger] all@[j]).spec_text() != s@,
            decreases 4 - i,
        {
            if s.eq(&all[i].to_text()) {
                return Some(all[i]);
            }
            i += 1;
        }
        assert forall|st: RunStatus| #[trigger] st.spec_text() != s@ by {
            match st {
                RunStatus::Pending => assert(all@[0] == st),
                RunStatus::Processing => assert(all@[1] == st),
                RunStatus::Completed => assert(all@[2] == st),
                RunStatus::Failed => assert(all@[3] == st),
            }
        }
        None
    }
}

} // verus!
