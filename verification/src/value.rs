use vstd::prelude::*;

verus! {

/// The device-side processing blocks that a queue in the pipeline can belong
/// to. A queue value carries the kind of block that produced it.
#[derive(PartialEq, Eq, Structural, Clone, Copy, Debug)]
pub enum DepthaiNode {
    ColorCamera,
    MonoCamera,
    ImageManip,
    VideoEncoder,
    NeuralNetwork,
    DetectionNetwork,
    MobileNetDetectionNetwork,
    MobileNetSpatialDetectionNetwork,
    YoloDetectionNetwork,
    YoloSpatialDetectionNetwork,
    SpatialDetectionNetwork,
    SPIIn,
    XLinkIn,
    SPIOut,
    XLinkOut,
    Script,
    StereoDepth,
    SpatialLocationCalculator,
    EdgeDetector,
    FeaureTracker,
    ObjectTracker,
    IMU,
}

/// A two-component vector value.
#[derive(PartialEq, Eq, Structural, Clone, Copy, Debug)]
pub struct Vec2 {
    pub x: i64,
    pub y: i64,
}

/// The type of a port. Two ports may be connected exactly when their types
/// are equal; queue types are considered equal regardless of which block
/// kind they carry.
#[derive(Eq, Clone, Copy, Debug)]
pub enum MyDataType {
    Scalar,
    Vec2,
    Queue(DepthaiNode),
}

impl MyDataType {
    /// Port compatibility: scalars match scalars, vectors match vectors, and
    /// any queue matches any other queue.
    pub open spec fn same_kind(self, other: Self) -> bool {
        match (self, other) {
            (MyDataType::Scalar, MyDataType::Scalar) => true,
            (MyDataType::Vec2, MyDataType::Vec2) => true,
            (MyDataType::Queue(_), MyDataType::Queue(_)) => true,
            _ => false,
        }
    }
}

impl PartialEq for MyDataType {
    fn eq(&self, other: &Self) -> (r: bool) {
        match (self, other) {
            (MyDataType::Scalar, MyDataType::Scalar) => true,
            (MyDataType::Vec2, MyDataType::Vec2) => true,
            (MyDataType::Queue(_), MyDataType::Queue(_)) => true,
            _ => false,
        }
    }
}

impl vstd::std_specs::cmp::PartialEqSpecImpl for MyDataType {
    open spec fn obeys_eq_spec() -> bool {
        true
    }

    open spec fn eq_spec(&self, other: &Self) -> bool {
        self.same_kind(*other)
    }
}

/// The failures that value coercion and graph evaluation can produce.
#[derive(PartialEq, Eq, Structural, Clone, Copy, Debug)]
pub enum EvalError {
    /// The value was not a vector.
    NotAVec2,
    /// The value was not a scalar.
    NotAScalar,
    /// The value was not a queue.
    NotAQueue,
    /// The node has no input or output port with the requested name.
    NoSuchParameter,
    /// Evaluating the upstream node did not fill the cache entry that the
    /// connection reads.
    OutputNotComputed,
    /// Scalar arithmetic left the representable range.
    Overflow,
    /// The evaluation budget ran out: the graph has a dependency cycle.
    Cycle,
}

/// What an `EvalError` reads as when reported to the user.
pub open spec fn spec_eval_error_message(e: EvalError) -> Seq<char> {
    match e {
        EvalError::NotAVec2 => "invalid cast to vec2"@,
        EvalError::NotAScalar => "invalid cast to scalar"@,
        EvalError::NotAQueue => "invalid cast to node"@,
        EvalError::NoSuchParameter => "no parameter with this name"@,
        EvalError::OutputNotComputed => "upstream output was not computed"@,
        EvalError::Overflow => "scalar arithmetic overflowed"@,
        EvalError::Cycle => "the graph has a dependency cycle"@,
    }
}

impl EvalError {
    /// Renders this failure as text.
    pub fn message(&self) -> (r: String)
        ensures
            r@ == spec_eval_error_message(*self),
    {
        match self {
            EvalError::NotAVec2 => "invalid cast to vec2".to_owned(),
            EvalError::NotAScalar => "invalid cast to scalar".to_owned(),
            EvalError::NotAQueue => "invalid cast to node".to_owned(),
            EvalError::NoSuchParameter => "no parameter with this name".to_owned(),
            EvalError::OutputNotComputed => "upstream output was not computed".to_owned(),
            EvalError::Overflow => "scalar arithmetic overflowed".to_owned(),
            EvalError::Cycle => "the graph has a dependency cycle".to_owned(),
        }
    }
}

/// A value carried by an input port, either set as a constant on the node or
/// produced by evaluation.
#[derive(PartialEq, Eq, Structural, Clone, Copy, Debug)]
pub enum MyValueType {
    Vec2 { value: Vec2 },
    Scalar { value: i64 },
    Queue(DepthaiNode),
}

impl Default for MyValueType {
    fn default() -> (r: Self)
        ensures
            r == (MyValueType::Scalar { value: 0i64 }),
    {
        MyValueType::Scalar { value: 0 }
    }
}

impl MyValueType {
    /// What `try_to_vec2` returns.
    pub open spec fn spec_to_vec2(self) -> Result<Vec2, EvalError> {
        match self {
            MyValueType::Vec2 { value } => Ok(value),
            _ => Err(EvalError::NotAVec2),
        }
    }

    /// What `try_to_scalar` returns.
    pub open spec fn spec_to_scalar(self) -> Result<i64, EvalError> {
        match self {
            MyValueType::Scalar { value } => Ok(value),
            _ => Err(EvalError::NotAScalar),
        }
    }

    /// What `try_to_node` returns.
    pub open spec fn spec_to_node(self) -> Result<DepthaiNode, EvalError> {
        match self {
            MyValueType::Queue(node) => Ok(node),
            _ => Err(EvalError::NotAQueue),
        }
    }

    /// Tries to downcast this value to a vector.
    pub fn try_to_vec2(self) -> (r: Result<Vec2, EvalError>)
        ensures
            r == self.spec_to_vec2(),
    {
        if let MyValueType::Vec2 { value } = self {
            Ok(value)
        } else {
            Err(EvalError::NotAVec2)
        }
    }

    /// Tries to downcast this value to a scalar.
    pub fn try_to_scalar(self) -> (r: Result<i64, EvalError>)
        ensures
            r == self.spec_to_scalar(),
    {
        if let MyValueType::Scalar { value } = self {
            Ok(value)
        } else {
            Err(EvalError::NotAScalar)
        }
    }

    /// Tries to downcast this value to a queue.
    pub fn try_to_node(self) -> (r: Result<DepthaiNode, EvalError>)
        ensures
            r == self.spec_to_node(),
    {
        if let MyValueType::Queue(node) = self {
            Ok(node)
        } else {
            Err(EvalError::NotAQueue)
        }
    }
}

} // verus!
