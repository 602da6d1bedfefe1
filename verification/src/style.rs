use vstd::prelude::*;

use crate::template::spec_device_name;
use crate::template::MyNodeData;
use crate::template::MyNodeTemplate;
use crate::value::DepthaiNode;
use crate::value::MyDataType;

verus! {

/// An opaque-alpha display colour.
#[derive(PartialEq, Eq, Structural, Clone, Copy, Debug)]
pub struct Color {
    pub r: u8,
    pub g: u8,
    pub b: u8,
}

impl Color {
    /// Builds a colour from its three channels.
    pub fn from_rgb(r: u8, g: u8, b: u8) -> (c: Color)
        ensures
            c == (Color { r, g, b }),
    {
        Color { r, g, b }
    }
}

/// The colour a queue port of each block kind is drawn with.
pub open spec fn spec_queue_color(n: DepthaiNode) -> Color {
    match n {
        DepthaiNode::ColorCamera => (Color { r: 241, g: 148, b: 138 }),
        DepthaiNode::MonoCamera => (Color { r: 243, g: 243, b: 243 }),
        DepthaiNode::ImageManip => (Color { r: 174, g: 214, b: 241 }),
        DepthaiNode::VideoEncoder => (Color { r: 190, g: 190, b: 190 }),
        DepthaiNode::NeuralNetwork => (Color { r: 171, g: 235, b: 198 }),
        DepthaiNode::DetectionNetwork => (Color { r: 171, g: 235, b: 198 }),
        DepthaiNode::MobileNetDetectionNetwork => (Color { r: 171, g: 235, b: 198 }),
        DepthaiNode::MobileNetSpatialDetectionNetwork => (Color { r: 171, g: 235, b: 198 }),
        DepthaiNode::YoloDetectionNetwork => (Color { r: 171, g: 235, b: 198 }),
        DepthaiNode::YoloSpatialDetectionNetwork => (Color { r: 171, g: 235, b: 198 }),
        DepthaiNode::SpatialDetectionNetwork => (Color { r: 171, g: 235, b: 198 }),
        DepthaiNode::SPIIn => (Color { r: 242, g: 215, b: 213 }),
        DepthaiNode::XLinkIn => (Color { r: 242, g: 215, b: 213 }),
        DepthaiNode::SPIOut => (Color { r: 230, g: 176, b: 170 }),
        DepthaiNode::XLinkOut => (Color { r: 230, g: 176, b: 170 }),
        DepthaiNode::Script => (Color { r: 249, g: 231, b: 159 }),
        DepthaiNode::StereoDepth => (Color { r: 215, g: 189, b: 226 }),
        DepthaiNode::SpatialLocationCalculator => (Color { r: 215, g: 189, b: 226 }),
        DepthaiNode::EdgeDetector => (Color { r: 248, g: 196, b: 113 }),
        DepthaiNode::FeaureTracker => (Color { r: 248, g: 196, b: 113 }),
        DepthaiNode::ObjectTracker => (Color { r: 248, g: 196, b: 113 }),
        DepthaiNode::IMU => (Color { r: 248, g: 196, b: 113 }),
    }
}

/// The colour each port type is drawn with.
pub open spec fn spec_data_type_color(t: MyDataType) -> Color {
    match t {
        MyDataType::Scalar => (Color { r: 38, g: 109, b: 211 }),
        MyDataType::Vec2 => (Color { r: 238, g: 207, b: 109 }),
        MyDataType::Queue(n) => spec_queue_color(n),
    }
}

/// The display name of each port type: queue ports show their block kind.
pub open spec fn spec_data_type_name(t: MyDataType) -> Seq<char> {
    match t {
        MyDataType::Scalar => "scalar"@,
        MyDataType::Vec2 => "2d vector"@,
        MyDataType::Queue(n) => spec_device_name(n),
    }
}

impl MyDataType {
    /// The colour connections and ports of this type are drawn with.
    pub fn data_type_color(&self) -> (c: Color)
        ensures
            c == spec_data_type_color(*self),
    {
        match self {
            MyDataType::Scalar => Color::from_rgb(38, 109, 211),
            MyDataType::Vec2 => Color::from_rgb(238, 207, 109),
            MyDataType::Queue(DepthaiNode::ColorCamera) => Color::from_rgb(241, 148, 138),
            MyDataType::Queue(DepthaiNode::MonoCamera) => Color::from_rgb(243, 243, 243),
            MyDataType::Queue(DepthaiNode::ImageManip) => Color::from_rgb(174, 214, 241),
            MyDataType::Queue(DepthaiNode::VideoEncoder) => Color::from_rgb(190, 190, 190),
            MyDataType::Queue(DepthaiNode::NeuralNetwork) => Color::from_rgb(171, 235, 198),
            MyDataType::Queue(DepthaiNode::DetectionNetwork) => Color::from_rgb(171, 235, 198),
            MyDataType::Queue(DepthaiNode::MobileNetDetectionNetwork) => Color::from_rgb(
                171,
                235,
                198,
            ),
            MyDataType::Queue(DepthaiNode::MobileNetSpatialDetectionNetwork) => Color::from_rgb(
                171,
                235,
                198,
            ),
            MyDataType::Queue(DepthaiNode::YoloDetectionNetwork) => Color::from_rgb(171, 235, 198),
            MyDataType::Queue(DepthaiNode::YoloSpatialDetectionNetwork) => Color::from_rgb(
                171,
                235,
                198,
            ),
            MyDataType::Queue(DepthaiNode::SpatialDetectionNetwork) => Color::from_rgb(
                171,
                235,
                198,
            ),
            MyDataType::Queue(DepthaiNode::SPIIn) => Color::from_rgb(242, 215, 213),
            MyDataType::Queue(DepthaiNode::XLinkIn) => Color::from_rgb(242, 215, 213),
            MyDataType::Queue(DepthaiNode::SPIOut) => Color::from_rgb(230, 176, 170),
            MyDataType::Queue(DepthaiNode::XLinkOut) => Color::from_rgb(230, 176, 170),
            MyDataType::Queue(DepthaiNode::Script) => Color::from_rgb(249, 231, 159),
            MyDataType::Queue(DepthaiNode::StereoDepth) => Color::from_rgb(215, 189, 226),
            MyDataType::Queue(DepthaiNode::SpatialLocationCalculator) => Color::from_rgb(
                215,
                189,
                226,
            ),
            MyDataType::Queue(DepthaiNode::EdgeDetector) => Color::from_rgb(248, 196, 113),
            MyDataType::Queue(DepthaiNode::FeaureTracker) => Color::from_rgb(248, 196, 113),
            MyDataType::Queue(DepthaiNode::ObjectTracker) => Color::from_rgb(248, 196, 113),
            MyDataType::Queue(DepthaiNode::IMU) => Color::from_rgb(248, 196, 113),
        }
    }

    /// The display name of this port type.
    pub fn name(&self) -> (r: String)
        ensures
            r@ == spec_data_type_name(*self),
    {
        match self {
            MyDataType::Scalar => "scalar".to_owned(),
            MyDataType::Vec2 => "2d vector".to_owned(),
            MyDataType::Queue(n) => n.name(),
        }
    }
}

/// The background colour a node of each template is drawn with, if it
/// overrides the default; the text colour is always black.
pub open spec fn spec_bg_color(t: MyNodeTemplate) -> Option<Color> {
    match t {
        MyNodeTemplate::CreateColorCamera => Some(Color { r: 241, g: 148, b: 138 }),
        MyNodeTemplate::CreateMonoCamera => Some(Color { r: 243, g: 243, b: 243 }),
        MyNodeTemplate::CreateImageManip => Some(Color { r: 174, g: 214, b: 241 }),
        MyNodeTemplate::CreateVideoEncoder => Some(Color { r: 190, g: 190, b: 190 }),
        MyNodeTemplate::CreateNeuralNetwork | MyNodeTemplate::CreateDetectionNetwork
            | MyNodeTemplate::CreateMobileNetDetectionNetwork
            | MyNodeTemplate::CreateMobileNetSpatialDetectionNetwork
            | MyNodeTemplate::CreateYoloDetectionNetwork
            | MyNodeTemplate::CreateYoloSpatialDetectionNetwork => Some(
            Color { r: 171, g: 235, b: 198 },
        ),
        MyNodeTemplate::CreateSPIIn | MyNodeTemplate::CreateXLinkIn => Some(
            Color { r: 242, g: 215, b: 213 },
        ),
        MyNodeTemplate::CreateSPIOut | MyNodeTemplate::CreateXLinkOut => Some(
            Color { r: 230, g: 176, b: 170 },
        ),
        MyNodeTemplate::CreateScript(_, _) => Some(Color { r: 249, g: 231, b: 159 }),
        MyNodeTemplate::CreateStereoDepth | MyNodeTemplate::CreateSpatialLocationCalculator => Some(
            Color { r: 215, g: 189, b: 226 },
        ),
        MyNodeTemplate::CreateEdgeDetector | MyNodeTemplate::CreateFeaureTracker
            | MyNodeTemplate::CreateObjectTracker | MyNodeTemplate::CreateIMU => Some(
            Color { r: 248, g: 196, b: 113 },
        ),
        _ => None,
    }
}

impl MyNodeData {
    /// The background and text colours a node built from this data is drawn
    /// with, if its template overrides the default.
    pub fn bg_and_text_color(&self) -> (r: Option<(Color, Color)>)
        ensures
            match spec_bg_color(self.template) {
                Some(bg) => r == Some((bg, (Color { r: 0, g: 0, b: 0 }))),
                None => r is None,
            },
    {
        let bg = match &self.template {
            MyNodeTemplate::CreateColorCamera => Some(Color::from_rgb(241, 148, 138)),
            MyNodeTemplate::CreateMonoCamera => Some(Color::from_rgb(243, 243, 243)),
            MyNodeTemplate::CreateImageManip => Some(Color::from_rgb(174, 214, 241)),
            MyNodeTemplate::CreateVideoEncoder => Some(Color::from_rgb(190, 190, 190)),
            MyNodeTemplate::CreateNeuralNetwork | MyNodeTemplate::CreateDetectionNetwork
                | MyNodeTemplate::CreateMobileNetDetectionNetwork
                | MyNodeTemplate::CreateMobileNetSpatialDetectionNetwork
                | MyNodeTemplate::CreateYoloDetectionNetwork
                | MyNodeTemplate::CreateYoloSpatialDetectionNetwork => Some(
                Color::from_rgb(171, 235, 198),
            ),
            MyNodeTemplate::CreateSPIIn | MyNodeTemplate::CreateXLinkIn => Some(
                Color::from_rgb(242, 215, 213),
            ),
            MyNodeTemplate::CreateSPIOut | MyNodeTemplate::CreateXLinkOut => Some(
                Color::from_rgb(230, 176, 170),
            ),
            MyNodeTemplate::CreateScript(_, _) => Some(Color::from_rgb(249, 231, 159)),
            MyNodeTemplate::CreateStereoDepth | MyNodeTemplate::CreateSpatialLocationCalculator =>
                Some(Color::from_rgb(215, 189, 226)),
            MyNodeTemplate::CreateEdgeDetector | MyNodeTemplate::CreateFeaureTracker
                | MyNodeTemplate::CreateObjectTracker | MyNodeTemplate::CreateIMU => Some(
                Color::from_rgb(248, 196, 113),
            ),
            _ => None,
        };
        match bg {
            Some(c) => Some((c, Color::from_rgb(0, 0, 0))),
            None => None,
        }
    }
}

} // verus!
