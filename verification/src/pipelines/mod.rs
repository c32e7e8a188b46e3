//! Render pipeline templates: the strategies a scene can be rendered with,
//! and the factory that picks one by name.

use vstd::prelude::*;

pub mod forward;
pub mod simple;

pub use forward::ForwardPipeline;
pub use simple::SimplePipeline;

verus! {

/// A render pipeline: a named way of turning a scene into a render graph
pub trait RenderPipeline {
    /// Get the pipeline name
    fn name(&self) -> &str;
}

/// A pipeline the factory can create
pub enum RenderPipelineKind {
    Simple(SimplePipeline),
    Forward(ForwardPipeline),
}

impl RenderPipeline for RenderPipelineKind {
    /// The name of the chosen pipeline
    fn name(&self) -> (s: &str)
        ensures
            s@ == match self {
                RenderPipelineKind::Simple(_) => "Simple"@,
                RenderPipelineKind::Forward(_) => "Forward"@,
            },
    {
        match self {
            RenderPipelineKind::Simple(p) => p.name(),
            RenderPipelineKind::Forward(p) => p.name(),
        }
    }
}

/// A pipeline name the factory does not know
#[derive(Debug, Clone)]
pub struct UnknownPipeline {
    /// The name asked for, as given
    pub name: String,
}

/// The lowercase form of a string, as `str::to_lowercase` computes it.
pub uninterp spec fn lowercase(s: Seq<char>) -> Seq<char>;

/// Calls std's `str::to_lowercase`, whose result is the Unicode lowercase
/// mapping of the argument and depends on nothing else; the contract claims
/// only that, by naming the result `lowercase` of the argument.
#[verifier::external_body]
fn to_lowercase(s: &str) -> (r: String)
    ensures
        r@ == lowercase(s@),
{
    s.to_lowercase()
}

/// The names of the available pipelines, in the order they are listed.
pub open spec fn pipeline_names() -> Seq<Seq<char>> {
    seq!["simple"@, "forward"@]
}

/// Pipeline factory for creating pipelines by name
pub struct PipelineFactory;

impl PipelineFactory {
    /// Create a pipeline by name, ignoring case
    pub fn create(name: &str) -> (r: Result<RenderPipelineKind, UnknownPipeline>)
        ensures
            match r {
                Ok(RenderPipelineKind::Simple(_)) => lowercase(name@) == "simple"@,
                Ok(RenderPipelineKind::Forward(_)) => lowercase(name@) == "forward"@,
                Err(e) => lowercase(name@) != "simple"@ && lowercase(name@) != "forward"@ && e.name@ == name@,
            },
    {
        let lower = to_lowercase(name);
        Self::create_from_lowercase(lower.as_str(), name)
    }

    /// Create the pipeline whose lowercase name is `lower`; `name` is the name as asked for
    pub fn create_from_lowercase(lower: &str, name: &str) -> (r: Result<RenderPipelineKind, UnknownPipeline>)
        ensures
            match r {
                Ok(RenderPipelineKind::Simple(_)) => lower@ == "simple"@,
                Ok(RenderPipelineKind::Forward(_)) => lower@ == "forward"@,
                Err(e) => lower@ != "simple"@ && lower@ != "forward"@ && e.name@ == name@,
            },
    {
        let key = lower.to_owned();
        if key == "simple".to_owned() {
            Ok(RenderPipelineKind::Simple(SimplePipeline::new()))
        } else if key == "forward".to_owned() {
            Ok(RenderPipelineKind::Forward(ForwardPipeline::new()))
        } else {
            Err(UnknownPipeline { name: name.to_owned() })
        }
    }

    /// List available pipelines
    pub fn list_pipelines() -> (v: Vec<String>)
        ensures
            v@.map_values(|s: String| s@) == pipeline_names(),
    {
        let v = vec!["simple".to_owned(), "forward".to_owned()];
        assert(v@.map_values(|s: String| s@) =~= pipeline_names());
        v
    }
}

/// Every listed pipeline name is one of the two names the factory creates a
/// pipeline for (`create_from_lowercase` accepts exactly "simple" and "forward").
pub proof fn lemma_listed_names_are_known(i: int)
    requires
        0 <= i < pipeline_names().len(),
    ensures
        pipeline_names()[i] == "simple"@ || pipeline_names()[i] == "forward"@,
{
}

} // verus!
