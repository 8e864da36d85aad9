use raindrop::error::{RaindropMcpError, Result};

#[test]
fn test_error_display() {
    let err = RaindropMcpError::RaindropApi("API rate limit exceeded".to_string(), None);
    assert_eq!(err.message(), "Raindrop API error: API rate limit exceeded");

    let err = RaindropMcpError::InvalidParameter("Missing required field".to_string());
    assert_eq!(err.message(), "Invalid parameter: Missing required field");

    let err = RaindropMcpError::NotFound("Collection not found".to_string());
    assert_eq!(err.message(), "Not found: Collection not found");

    let err = RaindropMcpError::Unauthorized("Invalid token".to_string());
    assert_eq!(err.message(), "Unauthorized: Invalid token");

    let err = RaindropMcpError::RateLimitExceeded {
        message: "Too many requests".to_string(),
        retry_after: Some(60),
    };
    assert_eq!(err.message(), "Rate limit exceeded: Too many requests");
}

fn succeeding() -> Result<String> {
    Ok("success".to_string())
}

fn failing() -> Result<String> {
    Err(RaindropMcpError::Unknown("test error".to_string()))
}

#[test]
fn test_result_type() {
    assert!(succeeding().is_ok());
    assert!(failing().is_err());
}

#[test]
fn test_retryable_errors() {
    let err = RaindropMcpError::ServiceUnavailable("Service is down".to_string());
    assert!(err.is_retryable());
    assert_eq!(err.retry_after(), Some(5));

    let err = RaindropMcpError::Timeout("Request timed out".to_string());
    assert!(err.is_retryable());
    assert_eq!(err.retry_after(), Some(2));

    let err = RaindropMcpError::RateLimitExceeded {
        message: "Too many requests".to_string(),
        retry_after: Some(30),
    };
    assert!(err.is_retryable());
    assert_eq!(err.retry_after(), Some(30));

    let err = RaindropMcpError::InvalidParameter("Bad input".to_string());
    assert!(!err.is_retryable());
    assert_eq!(err.retry_after(), None);
}

#[test]
fn test_mcp_error_codes() {
    let err = RaindropMcpError::InvalidParameter("Bad param".to_string());
    assert_eq!(err.to_mcp_error_code(), -32602);

    let err = RaindropMcpError::NotFound("Not found".to_string());
    assert_eq!(err.to_mcp_error_code(), -32601);

    let err = RaindropMcpError::Unauthorized("Unauthorized".to_string());
    assert_eq!(err.to_mcp_error_code(), -32603);

    let err = RaindropMcpError::RateLimitExceeded {
        message: "Rate limited".to_string(),
        retry_after: None,
    };
    assert_eq!(err.to_mcp_error_code(), -32604);
}

fn every_kind() -> Vec<RaindropMcpError> {
    vec![
        RaindropMcpError::RaindropApi("a".to_string(), None),
        RaindropMcpError::McpProtocol("b".to_string(), None),
        RaindropMcpError::HttpRequest("c".to_string()),
        RaindropMcpError::JsonSerialization("d".to_string()),
        RaindropMcpError::EnvironmentVariable("e".to_string()),
        RaindropMcpError::Io("f".to_string()),
        RaindropMcpError::InvalidParameter("g".to_string()),
        RaindropMcpError::NotFound("h".to_string()),
        RaindropMcpError::Unauthorized("i".to_string()),
        RaindropMcpError::RateLimitExceeded { message: "j".to_string(), retry_after: None },
        RaindropMcpError::ServiceUnavailable("k".to_string()),
        RaindropMcpError::Timeout("l".to_string()),
        RaindropMcpError::Unknown("m".to_string()),
    ]
}

#[test]
fn retry_table_covers_every_kind() {
    let retryable: Vec<bool> = every_kind().iter().map(|e| e.is_retryable()).collect();
    assert_eq!(
        retryable,
        vec![false, false, true, false, false, false, false, false, false, true, true, true, false]
    );
    let hints: Vec<Option<u64>> = every_kind().iter().map(|e| e.retry_after()).collect();
    assert_eq!(
        hints,
        vec![None, None, None, None, None, None, None, None, None, None, Some(5), Some(2), None]
    );
}

#[test]
fn error_codes_cover_every_kind() {
    let codes: Vec<i32> = every_kind().iter().map(|e| e.to_mcp_error_code()).collect();
    assert_eq!(
        codes,
        vec![
            -32603, -32603, -32603, -32603, -32603, -32603, -32602, -32601, -32603, -32604,
            -32605, -32606, -32603
        ]
    );
}

#[test]
fn messages_name_their_kind() {
    let messages: Vec<String> = every_kind().iter().map(|e| e.message()).collect();
    assert_eq!(
        messages,
        vec![
            "Raindrop API error: a",
            "MCP protocol error: b",
            "HTTP request error: c",
            "JSON serialization error: d",
            "Environment variable error: e",
            "IO error: f",
            "Invalid parameter: g",
            "Not found: h",
            "Unauthorized: i",
            "Rate limit exceeded: j",
            "Service unavailable: k",
            "Timeout: l",
            "Unknown error: m",
        ]
    );
}

#[test]
fn an_error_can_carry_its_cause() {
    let cause = RaindropMcpError::Timeout("slow".to_string());
    let err = RaindropMcpError::RaindropApi("outer".to_string(), Some(Box::new(cause)));
    assert!(!err.is_retryable());
    match err {
        RaindropMcpError::RaindropApi(_, Some(inner)) => assert!(inner.is_retryable()),
        _ => panic!("cause lost"),
    }
}
