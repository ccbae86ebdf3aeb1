//! The proving schemes, the routes a verification can take, and the shapes of
//! the artifacts that the routes read.

use vstd::prelude::*;

verus! {

/// The Nova implementation that produced a proof.
#[derive(Clone, Copy, Debug, PartialEq, Eq, Structural)]
pub enum NovaImpl {
    /// Linear incremental computation, one folded step after another.
    Sequential,
    /// Proof-carrying data folded as a tree.
    Parallel,
    /// The tree-shaped scheme over commitments that can be compressed afterwards.
    ParallelCompressible,
}

/// The prover that produced a proof.
#[derive(Clone, Copy, Debug, PartialEq, Eq, Structural)]
pub enum ProverImpl {
    /// The alternate scheme, which brings its own verifier.
    Jolt,
    /// One of the Nova implementations.
    Nova(NovaImpl),
}

/// The way a verification takes through the dispatcher.
#[derive(Clone, Copy, Debug, PartialEq, Eq, Structural)]
pub enum Route {
    /// The whole job is handed to the alternate scheme's verifier.
    Alternate,
    /// A compressed proof, verified with public parameters and a compression key.
    Compressed,
    /// A proof as the given Nova implementation left it.
    Nova(NovaImpl),
}

/// The shape in which an artifact is read.
#[derive(Clone, Copy, Debug, PartialEq, Eq, Structural)]
pub enum ProofShape {
    /// A sequential incremental proof.
    Sequential,
    /// The root node of a parallel recursive proof.
    Parallel,
    /// The root node of a parallel recursive proof that can be compressed.
    ParallelCompressible,
    /// A proof after compression.
    Compressed,
}

/// What the dispatcher reads of an artifact once it has been parsed.
#[derive(Clone, Copy, Debug, PartialEq, Eq, Structural)]
pub enum Artifact {
    /// A sequential incremental proof and the number of steps it says it folds.
    Sequential { step_num: u64 },
    /// The root node of a parallel recursive proof.
    Parallel,
    /// The root node of a parallel recursive proof that can be compressed.
    ParallelCompressible,
    /// A proof after compression.
    Compressed,
}

impl NovaImpl {
    /// The shape of the proofs this implementation writes.
    pub open spec fn shape(self) -> ProofShape {
        match self {
            NovaImpl::Sequential => ProofShape::Sequential,
            NovaImpl::Parallel => ProofShape::Parallel,
            NovaImpl::ParallelCompressible => ProofShape::ParallelCompressible,
        }
    }

    /// The word by which this implementation is known in file names.
    pub open spec fn tag(self) -> Seq<char> {
        match self {
            NovaImpl::Sequential => seq!['s', 'e', 'q'],
            NovaImpl::Parallel => seq!['p', 'a', 'r'],
            NovaImpl::ParallelCompressible => seq!['p', 'a', 'r', '-', 'c', 'o', 'm'],
        }
    }

    /// The shape of the proofs this implementation writes.
    pub fn proof_shape(self) -> (shape: ProofShape)
        ensures
            shape == self.shape(),
    {
        match self {
            NovaImpl::Sequential => ProofShape::Sequential,
            NovaImpl::Parallel => ProofShape::Parallel,
            NovaImpl::ParallelCompressible => ProofShape::ParallelCompressible,
        }
    }

    /// The word by which this implementation is known in file names.
    pub fn tag_str(self) -> (tag: &'static str)
        ensures
            tag@ == self.tag(),
    {
        proof {
            reveal_strlit("seq");
            reveal_strlit("par");
            reveal_strlit("par-com");
        }
        let tag = match self {
            NovaImpl::Sequential => "seq",
            NovaImpl::Parallel => "par",
            NovaImpl::ParallelCompressible => "par-com",
        };
        assert(tag@ =~= self.tag());
        tag
    }
}

impl Artifact {
    /// The shape this artifact was read in.
    pub open spec fn shape(self) -> ProofShape {
        match self {
            Artifact::Sequential { .. } => ProofShape::Sequential,
            Artifact::Parallel => ProofShape::Parallel,
            Artifact::ParallelCompressible => ProofShape::ParallelCompressible,
            Artifact::Compressed => ProofShape::Compressed,
        }
    }

    /// The step count handed to the verifier: the one a sequential proof
    /// carries, taken as it stands, and none for the other shapes.
    pub open spec fn steps(self) -> Option<u64> {
        match self {
            Artifact::Sequential { step_num } => Some(step_num),
            _ => None,
        }
    }

    /// The shape this artifact was read in.
    pub fn proof_shape(self) -> (shape: ProofShape)
        ensures
            shape == self.shape(),
    {
        match self {
            Artifact::Sequential { .. } => ProofShape::Sequential,
            Artifact::Parallel => ProofShape::Parallel,
            Artifact::ParallelCompressible => ProofShape::ParallelCompressible,
            Artifact::Compressed => ProofShape::Compressed,
        }
    }

    /// The step count handed to the verifier.
    pub fn step_count(self) -> (steps: Option<u64>)
        ensures
            steps == self.steps(),
    {
        match self {
            Artifact::Sequential { step_num } => Some(step_num),
            _ => None,
        }
    }
}

impl Route {
    /// The route for a prover and a proof that is or is not compressed. The
    /// alternate scheme is asked first: it is delegated whether or not the
    /// proof is said to be compressed.
    pub open spec fn select(prover: ProverImpl, compressed: bool) -> Route {
        match prover {
            ProverImpl::Jolt => Route::Alternate,
            ProverImpl::Nova(nova_impl) => if compressed {
                Route::Compressed
            } else {
                Route::Nova(nova_impl)
            },
        }
    }

    /// The shape in which this route reads its artifact. The alternate route
    /// reads none: its artifact is opaque to the dispatcher.
    pub open spec fn expected_shape(self) -> Option<ProofShape> {
        match self {
            Route::Alternate => None,
            Route::Compressed => Some(ProofShape::Compressed),
            Route::Nova(nova_impl) => Some(nova_impl.shape()),
        }
    }

    /// The kind of public parameters this route loads.
    pub open spec fn params_kind(self) -> Option<NovaImpl> {
        match self {
            Route::Alternate => None,
            Route::Compressed => Some(NovaImpl::ParallelCompressible),
            Route::Nova(nova_impl) => Some(nova_impl),
        }
    }

    /// Whether this route needs a compression key besides the parameters.
    pub open spec fn needs_key(self) -> bool {
        self == Route::Compressed
    }

    /// The Nova implementation that a report about this route names.
    pub open spec fn nova_impl(self) -> Option<NovaImpl> {
        match self {
            Route::Nova(nova_impl) => Some(nova_impl),
            _ => None,
        }
    }

    /// The title of the progress indicator.
    pub open spec fn title(self) -> Seq<char> {
        if self == Route::Compressed {
            "Verifying compressed"@
        } else {
            "Verifying"@
        }
    }

    /// The word for what is being verified: the root of a tree for the two
    /// parallel implementations, a proof otherwise.
    pub open spec fn step_label(self) -> Seq<char> {
        match self {
            Route::Nova(NovaImpl::Parallel) => "root"@,
            Route::Nova(NovaImpl::ParallelCompressible) => "root"@,
            _ => "proof"@,
        }
    }

    /// Picks the route for a prover and a proof that is or is not compressed.
    pub fn choose_route(prover: ProverImpl, compressed: bool) -> (route: Route)
        ensures
            route == Route::select(prover, compressed),
    {
        match prover {
            ProverImpl::Jolt => Route::Alternate,
            ProverImpl::Nova(nova_impl) => if compressed {
                Route::Compressed
            } else {
                Route::Nova(nova_impl)
            },
        }
    }

    /// The title of the progress indicator.
    pub fn indicator_title(self) -> (title: &'static str)
        ensures
            title@ == self.title(),
    {
        match self {
            Route::Compressed => "Verifying compressed",
            _ => "Verifying",
        }
    }

    /// The word for what is being verified.
    pub fn indicator_label(self) -> (label: &'static str)
        ensures
            label@ == self.step_label(),
    {
        match self {
            Route::Nova(NovaImpl::Parallel) => "root",
            Route::Nova(NovaImpl::ParallelCompressible) => "root",
            _ => "proof",
        }
    }
}

} // verus!
