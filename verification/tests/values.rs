use pipeline_graph::style::Color;
use pipeline_graph::template::AllMyNodeTemplates;
use pipeline_graph::template::MyNodeData;
use pipeline_graph::template::MyNodeTemplate;
use pipeline_graph::DepthaiNode;
use pipeline_graph::EvalError;
use pipeline_graph::MyDataType;
use pipeline_graph::MyValueType;
use pipeline_graph::Vec2;

#[test]
fn scalar_casts() {
    let v = MyValueType::Scalar { value: 7 };
    assert_eq!(v.try_to_scalar(), Ok(7));
    assert_eq!(v.try_to_vec2(), Err(EvalError::NotAVec2));
    assert_eq!(v.try_to_node(), Err(EvalError::NotAQueue));
}

#[test]
fn vector_casts() {
    let v = MyValueType::Vec2 { value: Vec2 { x: 1, y: -2 } };
    assert_eq!(v.try_to_vec2(), Ok(Vec2 { x: 1, y: -2 }));
    assert_eq!(v.try_to_scalar(), Err(EvalError::NotAScalar));
}

#[test]
fn queue_casts() {
    let v = MyValueType::Queue(DepthaiNode::ColorCamera);
    assert_eq!(v.try_to_node(), Ok(DepthaiNode::ColorCamera));
    assert_eq!(v.try_to_scalar(), Err(EvalError::NotAScalar));
    assert_eq!(v.try_to_vec2(), Err(EvalError::NotAVec2));
}

#[test]
fn default_value_is_zero_scalar() {
    assert_eq!(MyValueType::default(), MyValueType::Scalar { value: 0 });
}

#[test]
fn data_type_equality_ignores_queue_kind() {
    assert_eq!(MyDataType::Scalar, MyDataType::Scalar);
    assert_eq!(MyDataType::Vec2, MyDataType::Vec2);
    assert!(MyDataType::Scalar != MyDataType::Vec2);
    assert_eq!(
        MyDataType::Queue(DepthaiNode::ColorCamera),
        MyDataType::Queue(DepthaiNode::XLinkOut)
    );
    assert!(MyDataType::Scalar != MyDataType::Queue(DepthaiNode::ColorCamera));
}

#[test]
fn data_type_names() {
    assert_eq!(MyDataType::Scalar.name(), "scalar");
    assert_eq!(MyDataType::Vec2.name(), "2d vector");
    assert_eq!(
        MyDataType::Queue(DepthaiNode::MobileNetSpatialDetectionNetwork).name(),
        "MobileNet Spatial Detection Network"
    );
}

#[test]
fn device_names() {
    assert_eq!(DepthaiNode::ColorCamera.name(), "Color Camera");
    assert_eq!(DepthaiNode::ImageManip.name(), "Image Manipulation");
    assert_eq!(DepthaiNode::FeaureTracker.name(), "Feature Tracker");
    assert_eq!(DepthaiNode::IMU.name(), "IMU");
}

#[test]
fn data_type_colors() {
    assert_eq!(
        MyDataType::Scalar.data_type_color(),
        Color { r: 38, g: 109, b: 211 }
    );
    assert_eq!(
        MyDataType::Vec2.data_type_color(),
        Color { r: 238, g: 207, b: 109 }
    );
    assert_eq!(
        MyDataType::Queue(DepthaiNode::Script).data_type_color(),
        Color { r: 249, g: 231, b: 159 }
    );
    assert_eq!(
        MyDataType::Queue(DepthaiNode::StereoDepth).data_type_color(),
        Color { r: 215, g: 189, b: 226 }
    );
}

#[test]
fn node_background_colors() {
    let camera = MyNodeData { template: MyNodeTemplate::CreateColorCamera };
    assert_eq!(
        camera.bg_and_text_color(),
        Some((Color { r: 241, g: 148, b: 138 }, Color { r: 0, g: 0, b: 0 }))
    );
    let arithmetic = MyNodeData { template: MyNodeTemplate::AddScalar };
    assert_eq!(arithmetic.bg_and_text_color(), None);
    let script = MyNodeData {
        template: MyNodeTemplate::CreateScript(vec![], vec![]),
    };
    assert_eq!(
        script.bg_and_text_color(),
        Some((Color { r: 249, g: 231, b: 159 }, Color { r: 0, g: 0, b: 0 }))
    );
}

#[test]
fn finder_labels() {
    assert_eq!(MyNodeTemplate::MakeScalar.node_finder_label(), "New scalar");
    assert_eq!(MyNodeTemplate::AddScalar.node_finder_label(), "Scalar add");
    assert_eq!(
        MyNodeTemplate::VectorTimesScalar.node_finder_label(),
        "Vector times scalar"
    );
    assert_eq!(
        MyNodeTemplate::CreateScript(vec!["a".to_owned()], vec![]).node_finder_label(),
        "Create Script"
    );
    assert_eq!(
        MyNodeTemplate::CreateMobileNetSpatialDetectionNetwork.node_graph_label(),
        "Create MobileNet Spatial Detection Network"
    );
}

#[test]
fn finder_categories() {
    assert_eq!(MyNodeTemplate::AddScalar.node_finder_categories(), vec!["Scalar"]);
    assert_eq!(MyNodeTemplate::MakeVector.node_finder_categories(), vec!["Vector"]);
    assert_eq!(
        MyNodeTemplate::VectorTimesScalar.node_finder_categories(),
        vec!["Vector", "Scalar"]
    );
    assert_eq!(
        MyNodeTemplate::CreateColorCamera.node_finder_categories(),
        vec!["Other"]
    );
}

#[test]
fn all_template_kinds() {
    let kinds = AllMyNodeTemplates.all_kinds();
    assert_eq!(kinds.len(), 7);
    assert!(matches!(kinds[0], MyNodeTemplate::MakeScalar));
    assert!(matches!(kinds[1], MyNodeTemplate::MakeVector));
    assert!(matches!(kinds[2], MyNodeTemplate::AddScalar));
    assert!(matches!(kinds[3], MyNodeTemplate::SubtractScalar));
    assert!(matches!(kinds[4], MyNodeTemplate::AddVector));
    assert!(matches!(kinds[5], MyNodeTemplate::SubtractVector));
    assert!(matches!(kinds[6], MyNodeTemplate::VectorTimesScalar));
}

#[test]
fn user_data_carries_template() {
    let t = MyNodeTemplate::CreateScript(vec!["in0".to_owned()], vec!["out0".to_owned()]);
    let data = t.user_data();
    match data.template {
        MyNodeTemplate::CreateScript(ins, outs) => {
            assert_eq!(ins, vec!["in0".to_owned()]);
            assert_eq!(outs, vec!["out0".to_owned()]);
        }
        _ => panic!("wrong template"),
    }
}

#[test]
fn eval_error_messages() {
    assert_eq!(EvalError::NotAVec2.message(), "invalid cast to vec2");
    assert_eq!(EvalError::NotAScalar.message(), "invalid cast to scalar");
    assert_eq!(EvalError::NotAQueue.message(), "invalid cast to node");
    assert_eq!(EvalError::NoSuchParameter.message(), "no parameter with this name");
    assert_eq!(
        EvalError::OutputNotComputed.message(),
        "upstream output was not computed"
    );
    assert_eq!(EvalError::Overflow.message(), "scalar arithmetic overflowed");
    assert_eq!(EvalError::Cycle.message(), "the graph has a dependency cycle");
}
