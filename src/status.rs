use vstd::prelude::*;
use crate::text::same_text;

verus! {

/// Health reported by the remote service, decoded from its status word.
#[derive(Debug, Clone, Copy, PartialEq, Eq, Structural)]
pub enum HealthCheckStatus {
    Ready,
    LlmModelNotFound,
    EmbeddingModelNotFound,
    Downloading,
    Healthy,
    Unhealthy,
    NotReady,
    Unknown,
}

/// The status that a status word stands for; any other word is `Unknown`.
pub open spec fn status_of(m: Seq<char>) -> HealthCheckStatus {
    if m == "ready"@ {
        HealthCheckStatus::Ready
    } else if m == "llmmodelnotfound"@ {
        HealthCheckStatus::LlmModelNotFound
    } else if m == "embeddingmodelnotfound"@ {
        HealthCheckStatus::EmbeddingModelNotFound
    } else if m == "downloading"@ {
        HealthCheckStatus::Downloading
    } else if m == "healthy"@ {
        HealthCheckStatus::Healthy
    } else if m == "notready"@ {
        HealthCheckStatus::NotReady
    } else if m == "unhealthy"@ {
        HealthCheckStatus::Unhealthy
    } else {
        HealthCheckStatus::Unknown
    }
}

/// Whether a status lets the client go on working.
pub open spec fn is_usable(s: HealthCheckStatus) -> bool {
    s == HealthCheckStatus::Ready || s == HealthCheckStatus::Healthy
}

/// The message shown to the user for a status that is not usable.
pub open spec fn unusable_message(s: HealthCheckStatus) -> Seq<char> {
    match s {
        HealthCheckStatus::LlmModelNotFound => "LLM mode is not found"@,
        HealthCheckStatus::EmbeddingModelNotFound => "Embedding mode is not found"@,
        HealthCheckStatus::Downloading => "Asset is downloading"@,
        HealthCheckStatus::Unhealthy => "PyLlmService is unhealthy"@,
        HealthCheckStatus::NotReady => "PyLlmService is not ready"@,
        _ => "PyLlmService is not available"@,
    }
}

impl HealthCheckStatus {
    /// Decodes the status word that the remote health check returns.
    pub fn from_message(message: &str) -> (r: Self)
        ensures
            r == status_of(message@),
    {
        proof {
            reveal_strlit("ready");
            reveal_strlit("llmmodelnotfound");
            reveal_strlit("embeddingmodelnotfound");
            reveal_strlit("downloading");
            reveal_strlit("healthy");
            reveal_strlit("notready");
            reveal_strlit("unhealthy");
        }
        if same_text(message, "ready") {
            HealthCheckStatus::Ready
        } else if same_text(message, "llmmodelnotfound") {
            HealthCheckStatus::LlmModelNotFound
        } else if same_text(message, "embeddingmodelnotfound") {
            HealthCheckStatus::EmbeddingModelNotFound
        } else if same_text(message, "downloading") {
            HealthCheckStatus::Downloading
        } else if same_text(message, "healthy") {
            HealthCheckStatus::Healthy
        } else if same_text(message, "notready") {
            HealthCheckStatus::NotReady
        } else if same_text(message, "unhealthy") {
            HealthCheckStatus::Unhealthy
        } else {
            HealthCheckStatus::Unknown
        }
    }

    /// The outcome of a health check with this status: success when the
    /// service is ready or healthy, otherwise the message to show.
    pub fn into_result(self) -> (r: Result<(), String>)
        ensures
            r is Ok <==> is_usable(self),
            r matches Err(m) ==> m@ == unusable_message(self),
    {
        match self {
            HealthCheckStatus::Ready => Ok(()),
            HealthCheckStatus::Healthy => Ok(()),
            HealthCheckStatus::LlmModelNotFound => Err(String::from_str("LLM mode is not found")),
            HealthCheckStatus::EmbeddingModelNotFound => Err(
                String::from_str("Embedding mode is not found"),
            ),
            HealthCheckStatus::Downloading => Err(String::from_str("Asset is downloading")),
            HealthCheckStatus::Unhealthy => Err(String::from_str("PyLlmService is unhealthy")),
            HealthCheckStatus::NotReady => Err(String::from_str("PyLlmService is not ready")),
            HealthCheckStatus::Unknown => Err(String::from_str("PyLlmService is not available")),
        }
    }
}

/// Decodes a health check's status word into its outcome.
pub fn health_check_result(status_word: &str) -> (r: Result<(), String>)
    ensures
        r is Ok <==> is_usable(status_of(status_word@)),
        r matches Err(m) ==> m@ == unusable_message(status_of(status_word@)),
{
    HealthCheckStatus::from_message(status_word).into_result()
}

} // verus!
