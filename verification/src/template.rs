use vstd::prelude::*;

use crate::value::DepthaiNode;

verus! {

/// The kinds of node a user can place in the editor. Script nodes carry the
/// names of their input and output ports, read from a schema dump.
pub enum MyNodeTemplate {
    MakeScalar,
    AddScalar,
    SubtractScalar,
    MakeVector,
    AddVector,
    SubtractVector,
    VectorTimesScalar,
    CreateColorCamera,
    CreateMonoCamera,
    CreateImageManip,
    CreateVideoEncoder,
    CreateNeuralNetwork,
    CreateDetectionNetwork,
    CreateMobileNetDetectionNetwork,
    CreateMobileNetSpatialDetectionNetwork,
    CreateYoloDetectionNetwork,
    CreateYoloSpatialDetectionNetwork,
    CreateSpatialDetectionNetwork,
    CreateSPIIn,
    CreateXLinkIn,
    CreateSPIOut,
    CreateXLinkOut,
    CreateScript(Vec<String>, Vec<String>),
    CreateStereoDepth,
    CreateSpatialLocationCalculator,
    CreateEdgeDetector,
    CreateFeaureTracker,
    CreateObjectTracker,
    CreateIMU,
}

impl MyNodeTemplate {
    /// Two templates carry the same information: they are the same variant,
    /// and script templates list the same port names.
    pub open spec fn equiv(self, other: Self) -> bool {
        match (self, other) {
            (MyNodeTemplate::CreateScript(a, b), MyNodeTemplate::CreateScript(c, d)) => {
                &&& a.deep_view() == c.deep_view()
                &&& b.deep_view() == d.deep_view()
            },
            (MyNodeTemplate::CreateScript(_, _), _) => false,
            (_, MyNodeTemplate::CreateScript(_, _)) => false,
            _ => self == other,
        }
    }
}

/// Clones a list of port names, preserving the characters of each name.
fn clone_names(v: &Vec<String>) -> (r: Vec<String>)
    ensures
        r.deep_view() == v.deep_view(),
{
    let r = v.clone();
    proof {
        assert forall|i: int| 0 <= i < v.deep_view().len() implies v.deep_view()[i]
            == r.deep_view()[i] by {
            assert(cloned::<String>(v[i], r[i]));
        }
        assert(v.deep_view() =~= r.deep_view());
    }
    r
}

impl Clone for MyNodeTemplate {
    fn clone(&self) -> (r: Self)
        ensures
            r.equiv(*self),
    {
        match self {
            MyNodeTemplate::MakeScalar => MyNodeTemplate::MakeScalar,
            MyNodeTemplate::AddScalar => MyNodeTemplate::AddScalar,
            MyNodeTemplate::SubtractScalar => MyNodeTemplate::SubtractScalar,
            MyNodeTemplate::MakeVector => MyNodeTemplate::MakeVector,
            MyNodeTemplate::AddVector => MyNodeTemplate::AddVector,
            MyNodeTemplate::SubtractVector => MyNodeTemplate::SubtractVector,
            MyNodeTemplate::VectorTimesScalar => MyNodeTemplate::VectorTimesScalar,
            MyNodeTemplate::CreateColorCamera => MyNodeTemplate::CreateColorCamera,
            MyNodeTemplate::CreateMonoCamera => MyNodeTemplate::CreateMonoCamera,
            MyNodeTemplate::CreateImageManip => MyNodeTemplate::CreateImageManip,
            MyNodeTemplate::CreateVideoEncoder => MyNodeTemplate::CreateVideoEncoder,
            MyNodeTemplate::CreateNeuralNetwork => MyNodeTemplate::CreateNeuralNetwork,
            MyNodeTemplate::CreateDetectionNetwork => MyNodeTemplate::CreateDetectionNetwork,
            MyNodeTemplate::CreateMobileNetDetectionNetwork => MyNodeTemplate::CreateMobileNetDetectionNetwork,
            MyNodeTemplate::CreateMobileNetSpatialDetectionNetwork => MyNodeTemplate::CreateMobileNetSpatialDetectionNetwork,
            MyNodeTemplate::CreateYoloDetectionNetwork => MyNodeTemplate::CreateYoloDetectionNetwork,
            MyNodeTemplate::CreateYoloSpatialDetectionNetwork => MyNodeTemplate::CreateYoloSpatialDetectionNetwork,
            MyNodeTemplate::CreateSpatialDetectionNetwork => MyNodeTemplate::CreateSpatialDetectionNetwork,
            MyNodeTemplate::CreateSPIIn => MyNodeTemplate::CreateSPIIn,
            MyNodeTemplate::CreateXLinkIn => MyNodeTemplate::CreateXLinkIn,
            MyNodeTemplate::CreateSPIOut => MyNodeTemplate::CreateSPIOut,
            MyNodeTemplate::CreateXLinkOut => MyNodeTemplate::CreateXLinkOut,
            MyNodeTemplate::CreateScript(ins, outs) => MyNodeTemplate::CreateScript(
                clone_names(ins),
                clone_names(outs),
            ),
            MyNodeTemplate::CreateStereoDepth => MyNodeTemplate::CreateStereoDepth,
            MyNodeTemplate::CreateSpatialLocationCalculator => MyNodeTemplate::CreateSpatialLocationCalculator,
            MyNodeTemplate::CreateEdgeDetector => MyNodeTemplate::CreateEdgeDetector,
            MyNodeTemplate::CreateFeaureTracker => MyNodeTemplate::CreateFeaureTracker,
            MyNodeTemplate::CreateObjectTracker => MyNodeTemplate::CreateObjectTracker,
            MyNodeTemplate::CreateIMU => MyNodeTemplate::CreateIMU,
        }
    }
}

/// The per-node data stored in each graph node: the template it was built
/// from.
pub struct MyNodeData {
    pub template: MyNodeTemplate,
}

/// What `node_finder_label` returns for each template.
pub open spec fn spec_node_finder_label(t: MyNodeTemplate) -> Seq<char> {
    match t {
        MyNodeTemplate::MakeScalar => "New scalar"@,
        MyNodeTemplate::AddScalar => "Scalar add"@,
        MyNodeTemplate::SubtractScalar => "Scalar subtract"@,
        MyNodeTemplate::MakeVector => "New vector"@,
        MyNodeTemplate::AddVector => "Vector add"@,
        MyNodeTemplate::SubtractVector => "Vector subtract"@,
        MyNodeTemplate::VectorTimesScalar => "Vector times scalar"@,
        MyNodeTemplate::CreateColorCamera => "Create Color Camera"@,
        MyNodeTemplate::CreateMonoCamera => "Create Mono Camera"@,
        MyNodeTemplate::CreateImageManip => "Create Image Manipulation"@,
        MyNodeTemplate::CreateVideoEncoder => "Create Video Encoder"@,
        MyNodeTemplate::CreateNeuralNetwork => "Create Neural Network"@,
        MyNodeTemplate::CreateDetectionNetwork => "Create Detection Network"@,
        MyNodeTemplate::CreateMobileNetDetectionNetwork => "Create MobileNet Detection Network"@,
        MyNodeTemplate::CreateMobileNetSpatialDetectionNetwork => "Create MobileNet Spatial Detection Network"@,
        MyNodeTemplate::CreateYoloDetectionNetwork => "Create Yolo Detection Network"@,
        MyNodeTemplate::CreateYoloSpatialDetectionNetwork => "Create Yolo Spatial Detection Network"@,
        MyNodeTemplate::CreateSpatialDetectionNetwork => "Create Spatial Detection Network"@,
        MyNodeTemplate::CreateSPIIn => "Create SPI In"@,
        MyNodeTemplate::CreateXLinkIn => "Create XLink In"@,
        MyNodeTemplate::CreateSPIOut => "Create SPI Out"@,
        MyNodeTemplate::CreateXLinkOut => "Create XLink Out"@,
        MyNodeTemplate::CreateScript(_, _) => "Create Script"@,
        MyNodeTemplate::CreateStereoDepth => "Create Stereo Depth"@,
        MyNodeTemplate::CreateSpatialLocationCalculator => "Create Spatial Location Calculator"@,
        MyNodeTemplate::CreateEdgeDetector => "Create Edge Detector"@,
        MyNodeTemplate::CreateFeaureTracker => "Create Feature Tracker"@,
        MyNodeTemplate::CreateObjectTracker => "Create Object Tracker"@,
        MyNodeTemplate::CreateIMU => "Create IMU"@,
    }
}

/// What `node_finder_categories` returns for each template.
pub open spec fn spec_node_finder_categories(t: MyNodeTemplate) -> Seq<Seq<char>> {
    match t {
        MyNodeTemplate::MakeScalar | MyNodeTemplate::AddScalar
            | MyNodeTemplate::SubtractScalar => seq!["Scalar"@],
        MyNodeTemplate::MakeVector | MyNodeTemplate::AddVector
            | MyNodeTemplate::SubtractVector => seq!["Vector"@],
        MyNodeTemplate::VectorTimesScalar => seq!["Vector"@, "Scalar"@],
        _ => seq!["Other"@],
    }
}

impl MyNodeTemplate {
    /// The label shown for this template in the node finder.
    pub fn node_finder_label(&self) -> (r: String)
        ensures
            r@ == spec_node_finder_label(*self),
    {
        match self {
            MyNodeTemplate::MakeScalar => "New scalar".to_owned(),
            MyNodeTemplate::AddScalar => "Scalar add".to_owned(),
            MyNodeTemplate::SubtractScalar => "Scalar subtract".to_owned(),
            MyNodeTemplate::MakeVector => "New vector".to_owned(),
            MyNodeTemplate::AddVector => "Vector add".to_owned(),
            MyNodeTemplate::SubtractVector => "Vector subtract".to_owned(),
            MyNodeTemplate::VectorTimesScalar => "Vector times scalar".to_owned(),
            MyNodeTemplate::CreateColorCamera => "Create Color Camera".to_owned(),
            MyNodeTemplate::CreateMonoCamera => "Create Mono Camera".to_owned(),
            MyNodeTemplate::CreateImageManip => "Create Image Manipulation".to_owned(),
            MyNodeTemplate::CreateVideoEncoder => "Create Video Encoder".to_owned(),
            MyNodeTemplate::CreateNeuralNetwork => "Create Neural Network".to_owned(),
            MyNodeTemplate::CreateDetectionNetwork => "Create Detection Network".to_owned(),
            MyNodeTemplate::CreateMobileNetDetectionNetwork => "Create MobileNet Detection Network".to_owned(),
            MyNodeTemplate::CreateMobileNetSpatialDetectionNetwork => "Create MobileNet Spatial Detection Network".to_owned(),
            MyNodeTemplate::CreateYoloDetectionNetwork => "Create Yolo Detection Network".to_owned(),
            MyNodeTemplate::CreateYoloSpatialDetectionNetwork => "Create Yolo Spatial Detection Network".to_owned(),
            MyNodeTemplate::CreateSpatialDetectionNetwork => "Create Spatial Detection Network".to_owned(),
            MyNodeTemplate::CreateSPIIn => "Create SPI In".to_owned(),
            MyNodeTemplate::CreateXLinkIn => "Create XLink In".to_owned(),
            MyNodeTemplate::CreateSPIOut => "Create SPI Out".to_owned(),
            MyNodeTemplate::CreateXLinkOut => "Create XLink Out".to_owned(),
            MyNodeTemplate::CreateScript(_, _) => "Create Script".to_owned(),
            MyNodeTemplate::CreateStereoDepth => "Create Stereo Depth".to_owned(),
            MyNodeTemplate::CreateSpatialLocationCalculator => "Create Spatial Location Calculator".to_owned(),
            MyNodeTemplate::CreateEdgeDetector => "Create Edge Detector".to_owned(),
            MyNodeTemplate::CreateFeaureTracker => "Create Feature Tracker".to_owned(),
            MyNodeTemplate::CreateObjectTracker => "Create Object Tracker".to_owned(),
            MyNodeTemplate::CreateIMU => "Create IMU".to_owned(),
        }
    }

    /// The collapsible categories this template is listed under in the node
    /// finder.
    pub fn node_finder_categories(&self) -> (r: Vec<String>)
        ensures
            r.deep_view() == spec_node_finder_categories(*self),
    {
        let mut v: Vec<String> = Vec::new();
        match self {
            MyNodeTemplate::MakeScalar | MyNodeTemplate::AddScalar
                | MyNodeTemplate::SubtractScalar => {
                v.push("Scalar".to_owned());
            },
            MyNodeTemplate::MakeVector | MyNodeTemplate::AddVector
                | MyNodeTemplate::SubtractVector => {
                v.push("Vector".to_owned());
            },
            MyNodeTemplate::VectorTimesScalar => {
                v.push("Vector".to_owned());
                v.push("Scalar".to_owned());
            },
            _ => {
                v.push("Other".to_owned());
            },
        }
        proof {
            assert(v.deep_view() =~= spec_node_finder_categories(*self));
        }
        v
    }

    /// The label shown on the node itself: the same as the finder label.
    pub fn node_graph_label(&self) -> (r: String)
        ensures
            r@ == spec_node_finder_label(*self),
    {
        self.node_finder_label()
    }

    /// The per-node data a fresh node of this template carries.
    pub fn user_data(&self) -> (r: MyNodeData)
        ensures
            r.template.equiv(*self),
    {
        MyNodeData { template: self.clone() }
    }
}

/// The set of templates offered in the node finder: the arithmetic ones.
pub struct AllMyNodeTemplates;

impl AllMyNodeTemplates {
    /// Every template kind the node finder offers, in display order.
    pub fn all_kinds(&self) -> (r: Vec<MyNodeTemplate>)
        ensures
            r@ == seq![
                MyNodeTemplate::MakeScalar,
                MyNodeTemplate::MakeVector,
                MyNodeTemplate::AddScalar,
                MyNodeTemplate::SubtractScalar,
                MyNodeTemplate::AddVector,
                MyNodeTemplate::SubtractVector,
                MyNodeTemplate::VectorTimesScalar,
            ],
    {
        let mut v: Vec<MyNodeTemplate> = Vec::new();
        v.push(MyNodeTemplate::MakeScalar);
        v.push(MyNodeTemplate::MakeVector);
        v.push(MyNodeTemplate::AddScalar);
        v.push(MyNodeTemplate::SubtractScalar);
        v.push(MyNodeTemplate::AddVector);
        v.push(MyNodeTemplate::SubtractVector);
        v.push(MyNodeTemplate::VectorTimesScalar);
        proof {
            assert(v@ =~= seq![
                MyNodeTemplate::MakeScalar,
                MyNodeTemplate::MakeVector,
                MyNodeTemplate::AddScalar,
                MyNodeTemplate::SubtractScalar,
                MyNodeTemplate::AddVector,
                MyNodeTemplate::SubtractVector,
                MyNodeTemplate::VectorTimesScalar,
            ]);
        }
        v
    }
}

/// What `DepthaiNode::name` returns for each block kind.
pub open spec fn spec_device_name(n: DepthaiNode) -> Seq<char> {
    match n {
        DepthaiNode::ColorCamera => "Color Camera"@,
        DepthaiNode::MonoCamera => "Mono Camera"@,
        DepthaiNode::ImageManip => "Image Manipulation"@,
        DepthaiNode::VideoEncoder => "Video Encoder"@,
        DepthaiNode::NeuralNetwork => "Neural Network"@,
        DepthaiNode::DetectionNetwork => "Detection Network"@,
        DepthaiNode::MobileNetDetectionNetwork => "MobileNet Detection Network"@,
        DepthaiNode::MobileNetSpatialDetectionNetwork => "MobileNet Spatial Detection Network"@,
        DepthaiNode::YoloDetectionNetwork => "Yolo Detection Network"@,
        DepthaiNode::YoloSpatialDetectionNetwork => "Yolo Spatial Detection Network"@,
        DepthaiNode::SpatialDetectionNetwork => "Spatial Detection Network"@,
        DepthaiNode::SPIIn => "SPI In"@,
        DepthaiNode::XLinkIn => "XLink In"@,
        DepthaiNode::SPIOut => "SPI Out"@,
        DepthaiNode::XLinkOut => "XLink Out"@,
        DepthaiNode::Script => "Script"@,
        DepthaiNode::StereoDepth => "Stereo Depth"@,
        DepthaiNode::SpatialLocationCalculator => "Spatial Location Calculator"@,
        DepthaiNode::EdgeDetector => "Edge Detector"@,
        DepthaiNode::FeaureTracker => "Feature Tracker"@,
        DepthaiNode::ObjectTracker => "Object Tracker"@,
        DepthaiNode::IMU => "IMU"@,
    }
}

impl DepthaiNode {
    /// The display name of this block kind.
    pub fn name(&self) -> (r: String)
        ensures
            r@ == spec_device_name(*self),
    {
        match self {
            DepthaiNode::ColorCamera => "Color Camera".to_owned(),
            DepthaiNode::MonoCamera => "Mono Camera".to_owned(),
            DepthaiNode::ImageManip => "Image Manipulation".to_owned(),
            DepthaiNode::VideoEncoder => "Video Encoder".to_owned(),
            DepthaiNode::NeuralNetwork => "Neural Network".to_owned(),
            DepthaiNode::DetectionNetwork => "Detection Network".to_owned(),
            DepthaiNode::MobileNetDetectionNetwork => "MobileNet Detection Network".to_owned(),
            DepthaiNode::MobileNetSpatialDetectionNetwork => "MobileNet Spatial Detection Network".to_owned(),
            DepthaiNode::YoloDetectionNetwork => "Yolo Detection Network".to_owned(),
            DepthaiNode::YoloSpatialDetectionNetwork => "Yolo Spatial Detection Network".to_owned(),
            DepthaiNode::SpatialDetectionNetwork => "Spatial Detection Network".to_owned(),
            DepthaiNode::SPIIn => "SPI In".to_owned(),
            DepthaiNode::XLinkIn => "XLink In".to_owned(),
            DepthaiNode::SPIOut => "SPI Out".to_owned(),
            DepthaiNode::XLinkOut => "XLink Out".to_owned(),
            DepthaiNode::Script => "Script".to_owned(),
            DepthaiNode::StereoDepth => "Stereo Depth".to_owned(),
            DepthaiNode::SpatialLocationCalculator => "Spatial Location Calculator".to_owned(),
            DepthaiNode::EdgeDetector => "Edge Detector".to_owned(),
            DepthaiNode::FeaureTracker => "Feature Tracker".to_owned(),
            DepthaiNode::ObjectTracker => "Object Tracker".to_owned(),
            DepthaiNode::IMU => "IMU".to_owned(),
        }
    }
}

} // verus!
