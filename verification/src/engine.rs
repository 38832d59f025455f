//! The life of a model: engine, network, compiled network.
//!
//! An engine reads a network from a pair of files. The network can be
//! configured until it is compiled for a device; compiling takes the
//! network, so that nothing can configure it afterwards. The compiled
//! network hands out requests, as many as are asked for.
//!
//! The values here record what each native call is made with. The native
//! handles stay with the caller that makes the calls. Where the engine was to
//! hand out a handle and did not, `handle_result` names the failure.

use vstd::prelude::*;
use crate::preparation::{Preparation, PreparationView};
use crate::request::{InferRequest, RequestState};
use crate::status::InferenceError;

verus! {

/// An engine, as mathematics: the plugin file it was set up with, if any.
pub struct CoreView {
    pub config: Option<Seq<char>>,
}

/// A network, as mathematics: the files it was read from and the batch
/// size set on it, if any.
pub struct NetworkView {
    pub model: Seq<char>,
    pub weights: Seq<char>,
    pub batch_size: Option<usize>,
}

/// A compiled network, as mathematics: the network it was compiled from
/// and the device it was compiled for.
pub struct ExecutableView {
    pub network: NetworkView,
    pub device: Seq<char>,
}

/// The stages of a model's life at which the engine hands out a handle.
#[derive(Debug, Clone, Copy, PartialEq, Eq, Structural)]
pub enum Stage {
    /// The engine itself is set up.
    Engine,
    /// A network is read from its files.
    Network,
    /// A network is compiled for a device.
    Executable,
    /// A request is made from a compiled network.
    Request,
}

impl Stage {
    /// What it means that no handle came back at this stage: the engine
    /// failed in general, the network was not read, the network was not
    /// loaded onto the device, the request was not allocated.
    pub open spec fn missing(self) -> InferenceError {
        match self {
            Stage::Engine => InferenceError::GeneralError,
            Stage::Network => InferenceError::NetworkNotReady,
            Stage::Executable => InferenceError::NetworkNotLoaded,
            Stage::Request => InferenceError::NotAllocated,
        }
    }
}

/// The outcome of a native call that was to hand out a handle: success if
/// the handle is there, else the failure that its absence means at that
/// stage.
pub fn handle_result(stage: Stage, present: bool) -> (r: Result<(), InferenceError>)
    ensures
        r == (if present {
            Ok::<(), InferenceError>(())
        } else {
            Err(stage.missing())
        }),
{
    if present {
        Ok(())
    } else {
        match stage {
            Stage::Engine => Err(InferenceError::GeneralError),
            Stage::Network => Err(InferenceError::NetworkNotReady),
            Stage::Executable => Err(InferenceError::NetworkNotLoaded),
            Stage::Request => Err(InferenceError::NotAllocated),
        }
    }
}

/// One instance of the inference runtime.
#[derive(Debug)]
pub struct Core {
    config: Option<String>,
}

/// A model that has been read and can still be configured.
#[derive(Debug)]
pub struct CNNNetwork {
    model_path: String,
    bin_path: String,
    batch_size: Option<usize>,
}

/// A model compiled for a device.
#[derive(Debug)]
pub struct ExecutableNetwork {
    network: CNNNetwork,
    device: String,
}

impl View for Core {
    type V = CoreView;

    closed spec fn view(&self) -> CoreView {
        CoreView {
            config: match self.config {
                Some(path) => Some(path@),
                None => None,
            },
        }
    }
}

impl View for CNNNetwork {
    type V = NetworkView;

    closed spec fn view(&self) -> NetworkView {
        NetworkView {
            model: self.model_path@,
            weights: self.bin_path@,
            batch_size: self.batch_size,
        }
    }
}

impl View for ExecutableNetwork {
    type V = ExecutableView;

    closed spec fn view(&self) -> ExecutableView {
        ExecutableView { network: self.network@, device: self.device@ }
    }
}

impl Core {
    /// An engine set up with the given plugin file. Without one the
    /// runtime looks for its plugins where it does by default.
    pub fn new(xml_config_file: Option<&str>) -> (core: Core)
        ensures
            core@.config == (match xml_config_file {
                Some(path) => Some(path@),
                None => None,
            }),
    {
        let config = match xml_config_file {
            Some(path) => Some(path.to_owned()),
            None => None,
        };
        Core { config }
    }

    /// The plugin file that the engine was set up with, if any.
    pub fn config(&self) -> (path: Option<&str>)
        ensures
            self@.config == (match path {
                Some(p) => Some(p@),
                None => None,
            }),
    {
        match &self.config {
            Some(path) => Some(path.as_str()),
            None => None,
        }
    }

    /// A network read from a topology file and a weights file. Nothing is
    /// set on it yet.
    pub fn read_network(&mut self, model_path: &str, bin_path: &str) -> (network: CNNNetwork)
        ensures
            network@ == (NetworkView {
                model: model_path@,
                weights: bin_path@,
                batch_size: None,
            }),
            final(self)@ == old(self)@,
    {
        CNNNetwork {
            model_path: model_path.to_owned(),
            bin_path: bin_path.to_owned(),
            batch_size: None,
        }
    }

    /// Compiles a network for a device. The network is taken: it cannot
    /// be configured or compiled again.
    pub fn load_network(&mut self, network: CNNNetwork, device: &str) -> (executable:
        ExecutableNetwork)
        ensures
            executable@ == (ExecutableView { network: network@, device: device@ }),
            final(self)@ == old(self)@,
    {
        ExecutableNetwork { network, device: device.to_owned() }
    }
}

impl CNNNetwork {
    /// The topology file that the network was read from.
    pub fn model_path(&self) -> (path: &str)
        ensures
            path@ == self@.model,
    {
        self.model_path.as_str()
    }

    /// The weights file that the network was read from.
    pub fn bin_path(&self) -> (path: &str)
        ensures
            path@ == self@.weights,
    {
        self.bin_path.as_str()
    }

    /// The batch size set on the network, if one was.
    pub fn batch_size(&self) -> (size: Option<usize>)
        ensures
            size == self@.batch_size,
    {
        self.batch_size
    }

    /// Sets the batch size. Nothing else changes.
    pub fn set_batch_size(&mut self, size: usize)
        ensures
            final(self)@ == (NetworkView { batch_size: Some(size), ..old(self)@ }),
    {
        self.batch_size = Some(size);
    }

    /// Begins the preparation of one input and one output of the network.
    /// The network itself is as before; the calls that the preparation
    /// names are made on the native network.
    pub fn prep_inputs_and_outputs(&mut self, input_name: &str, output_name: &str) -> (prep:
        Preparation)
        ensures
            prep@ == PreparationView::start(input_name@, output_name@),
            final(self)@ == old(self)@,
    {
        Preparation::new(input_name, output_name)
    }
}

impl ExecutableNetwork {
    /// The device that the network was compiled for.
    pub fn device(&self) -> (device: &str)
        ensures
            device@ == self@.device,
    {
        self.device.as_str()
    }

    /// The batch size that was set on the network before it was compiled,
    /// if one was.
    pub fn batch_size(&self) -> (size: Option<usize>)
        ensures
            size == self@.network.batch_size,
    {
        self.network.batch_size
    }

    /// A new request, idle, with nothing bound to it. Every call gives
    /// another request; the compiled network is as before.
    pub fn create_infer_request(&mut self) -> (request: InferRequest)
        ensures
            request@ == RequestState::Idle,
            final(self)@ == old(self)@,
    {
        InferRequest::new()
    }
}

} // verus!
