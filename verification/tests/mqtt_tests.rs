use plc_service::error::Error;
use plc_service::mqtt_message::{MqttCommonResponse, MqttMessage, STATUS_FAILURE, STATUS_OK};
use plc_service::mqtt_topic::{MqttTopic, MqttTopicInfoType, MqttTopicOperator, TopicError};
use plc_service::APP_NAME;

fn topic_error(r: Result<MqttTopic, Error>) -> TopicError {
    match r.unwrap_err() {
        Error::Topic(e) => e,
        other => panic!("not a topic error: {:?}", other),
    }
}

#[test]
fn test_topic_info_type() {
    assert!(TryInto::<MqttTopicInfoType>::try_into("request").unwrap() == MqttTopicInfoType::Request);
    assert!(TryInto::<MqttTopicInfoType>::try_into("response").unwrap() == MqttTopicInfoType::Response);
    assert!(TryInto::<MqttTopicInfoType>::try_into("event").unwrap() == MqttTopicInfoType::Event);
    assert!(TryInto::<MqttTopicInfoType>::try_into("spont").unwrap() == MqttTopicInfoType::Spont);

    assert!(MqttTopicInfoType::Request.to_string() == "request");
    assert!(MqttTopicInfoType::Response.to_string() == "response");
    assert!(MqttTopicInfoType::Event.to_string() == "event");
    assert!(MqttTopicInfoType::Spont.to_string() == "spont");
}

#[test]
fn test_topic_operator() {
    assert!(TryInto::<MqttTopicOperator>::try_into("set").unwrap() == MqttTopicOperator::SetOp);
    assert!(TryInto::<MqttTopicOperator>::try_into("get").unwrap() == MqttTopicOperator::Get);
    assert!(TryInto::<MqttTopicOperator>::try_into("action").unwrap() == MqttTopicOperator::Action);
    assert!(TryInto::<MqttTopicOperator>::try_into("notify").unwrap() == MqttTopicOperator::Notify);

    assert!(MqttTopicOperator::SetOp.to_string() == "set");
    assert!(MqttTopicOperator::Get.to_string() == "get");
    assert!(MqttTopicOperator::Action.to_string() == "action");
    assert!(MqttTopicOperator::Notify.to_string() == "notify");
}

#[test]
fn test_topic() {
    let topic_str = format!("app/set/request/{APP_NAME}/123");
    let topic: MqttTopic = topic_str.as_str().try_into().unwrap();
    assert!(topic.app() == "app");
    assert_eq!(topic.operator, MqttTopicOperator::SetOp);
    assert_eq!(topic.info_type, MqttTopicInfoType::Request);
    assert!(topic.info_target == APP_NAME);
    assert!(topic.info_object() == "123");

    assert_eq!(topic.to_string(), topic_str);

    let topic_str = format!("app/get/response/{APP_NAME}/123");
    let topic: MqttTopic = topic_str.as_str().try_into().unwrap();
    assert!(topic.app() == "app");
    assert_eq!(topic.operator, MqttTopicOperator::Get);
    assert_eq!(topic.info_type, MqttTopicInfoType::Response);
    assert!(topic.info_target == APP_NAME);
    assert!(topic.info_object() == "123");

    assert_eq!(topic.to_string(), topic_str);
}

#[test]
fn test_topic_transfer() {
    let topic_str = format!("app/get/response/{APP_NAME}/123");
    let topic: MqttTopic = topic_str.as_str().try_into().unwrap();
    assert!(topic.topic_transfer() == format!("{APP_NAME}/get/response/app/123"));

    let topic_str = format!("app/notify/spont/{APP_NAME}/123");
    let topic: MqttTopic = topic_str.as_str().try_into().unwrap();
    assert!(topic.topic_transfer() == format!("{APP_NAME}/notify/spont/app/123"));
}

#[test]
fn test_topic_app_suffix() {
    let topic_str = format!("app/get/response/{APP_NAME}/123");
    let topic: MqttTopic = topic_str.as_str().try_into().unwrap();
    assert!(topic.topic_app_suffix() == format!("get/response/{APP_NAME}/123"));
}

#[test]
fn test_topic_invalid() {
    assert_eq!(
        topic_error(TryInto::<MqttTopic>::try_into("app/set/request/device")),
        TopicError::Topic("app/set/request/device".to_string())
    );

    assert_eq!(
        topic_error(TryInto::<MqttTopic>::try_into("app/set/")),
        TopicError::Topic("app/set/".to_string())
    );

    assert_eq!(
        topic_error(TryInto::<MqttTopic>::try_into("app/set/request/device/123")),
        TopicError::InfoTarget("device".to_string())
    );

    assert_eq!(
        topic_error(TryInto::<MqttTopic>::try_into(format!("app/test/request/{APP_NAME}/123").as_str())),
        TopicError::Operator("test".to_string())
    );

    assert_eq!(
        topic_error(TryInto::<MqttTopic>::try_into(format!("app/set/test/{APP_NAME}/123").as_str())),
        TopicError::InfoType("test".to_string())
    );
}

#[test]
fn test_mqtt_message() {
    let msg = MqttMessage::new("topic", "payload");
    assert_eq!(msg.topic(), "topic");
    assert_eq!(msg.payload(), "payload");
}

#[test]
fn test_mqtt_common_response() {
    let mut response = MqttCommonResponse::new("123".into(), true, Some("OK".into()));
    assert_eq!(response.status, STATUS_OK);
    response.set_status(false);
    assert_eq!(response.status, STATUS_FAILURE);
    assert_eq!(response.msg, Some("OK".into()));
}

#[test]
fn test_mqtt_message_common_response() {
    let topic = format!("app/set/request/{APP_NAME}/123");
    let mut msg = MqttMessage::common_response(&topic, "payload").unwrap();
    assert_eq!(msg.topic(), format!("{APP_NAME}/set/response/app/123"));
    assert_eq!(msg.payload(), "");

    msg.set_payload("payload".into());
    assert_eq!(msg.payload(), "payload");

    msg.set_response_payload("123", true, Some("OK".into()));
    let payload: serde_json::Value = serde_json::from_str(msg.payload()).unwrap();
    assert_eq!(payload["token"], "123");
    assert_eq!(payload["status"], STATUS_OK);
    assert_eq!(payload["msg"], "OK");
}

#[test]
fn a_failed_answer_without_message_has_a_null_message() {
    let mut msg = MqttMessage::new("t", "");
    msg.set_response_payload("7", false, None);
    let payload: serde_json::Value = serde_json::from_str(msg.payload()).unwrap();
    assert_eq!(payload["token"], "7");
    assert_eq!(payload["status"], STATUS_FAILURE);
    assert!(payload["msg"].is_null());
    assert!(payload["timestamp"].is_string());
    assert_eq!(msg.topic(), "t");
}

#[test]
fn a_failure_answer_lists_its_members_in_order() {
    let request = MqttMessage::new(&format!("app/set/request/{APP_NAME}/1"), "{\"token\":\"42\"}");
    let answer = MqttMessage::new_with_msg_status_reason(request, STATUS_FAILURE, "bad");
    assert_eq!(answer.topic(), format!("{APP_NAME}/set/response/app/1"));
    let p = answer.payload();
    assert!(p.starts_with("{\"token\":\"42\",\"timestamp\":\""), "{}", p);
    assert!(p.ends_with("\",\"status\":\"FAILURE\",\"reason\":\"bad\"}"), "{}", p);
}
