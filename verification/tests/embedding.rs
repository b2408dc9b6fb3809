use cohere_adapter::client::{ApiErrorResponse, ApiResponse, Client};
use cohere_adapter::embed::{
    pair_embeddings, CohereEmbeddingModel, EmbeddingModel, EmbeddingResponse, MAX_DOCUMENTS,
};
use cohere_adapter::embeddings::EmbeddingError;

fn all_models() -> Vec<(CohereEmbeddingModel, &'static str, usize)> {
    vec![
        (CohereEmbeddingModel::EmbedEnglishV3, "embed-english-v3.0", 1024),
        (CohereEmbeddingModel::EmbedEnglishLightV3, "embed-english-light-v3.0", 384),
        (CohereEmbeddingModel::EmbedMultilingualV3, "embed-multilingual-v3.0", 1024),
        (CohereEmbeddingModel::EmbedMultilingualLightV3, "embed-multilingual-light-v3.0", 384),
        (CohereEmbeddingModel::EmbedEnglishV2, "embed-english-v2.0", 4096),
        (CohereEmbeddingModel::EmbedEnglishLightV2, "embed-english-light-v2.0", 1024),
        (CohereEmbeddingModel::EmbedMultilingualV2, "embed-multilingual-v2.0", 768),
    ]
}

fn response(embeddings: Vec<Vec<f64>>) -> EmbeddingResponse<Vec<f64>> {
    EmbeddingResponse {
        response_type: None,
        id: "r1".to_string(),
        embeddings,
        texts: vec![],
        meta: None,
    }
}

#[test]
fn model_names_round_trip() {
    for (model, name, _) in all_models() {
        assert_eq!(model.to_string(), name);
        assert_eq!(CohereEmbeddingModel::from_str(name).unwrap(), model);
        assert_eq!(CohereEmbeddingModel::from_str(&model.to_string()).unwrap(), model);
    }
}

#[test]
fn unknown_model_name_is_a_bad_model() {
    match CohereEmbeddingModel::from_str("embed-english-v4.0") {
        Err(EmbeddingError::BadModel(text)) => assert_eq!(text, "embed-english-v4.0"),
        other => panic!("unexpected: {:?}", other),
    }
    assert!(matches!(CohereEmbeddingModel::from_str(""), Err(EmbeddingError::BadModel(_))));
    assert!(matches!(
        CohereEmbeddingModel::from_str("Embed-English-v3.0"),
        Err(EmbeddingError::BadModel(_))
    ));
}

#[test]
fn dimensions_per_model() {
    let client = Client::new("key");
    for (model, _, dims) in all_models() {
        assert_eq!(model.ndims(), dims);
        assert_eq!(client.embedding_model(&model, "search_document").ndims(), dims);
    }
    assert_eq!(MAX_DOCUMENTS, 96);
}

#[test]
fn embedding_model_keeps_what_it_was_made_with() {
    let client = Client::from_url("key", "http://localhost:1234");
    let model = EmbeddingModel::new(client, &CohereEmbeddingModel::EmbedEnglishV2, "classification");
    assert_eq!(model.model, CohereEmbeddingModel::EmbedEnglishV2);
    assert_eq!(model.input_type, "classification");
    assert_eq!(model.client.base_url, "http://localhost:1234");
}

#[test]
fn embed_request_carries_model_texts_and_input_type() {
    let client = Client::new("key");
    let model = client.embedding_model(&CohereEmbeddingModel::EmbedMultilingualV3, "search_query");
    let documents = vec!["a".to_string(), "b".to_string()];
    let request = model.embed_request(&documents);
    assert_eq!(request.model, "embed-multilingual-v3.0");
    assert_eq!(request.texts, documents);
    assert_eq!(request.input_type, "search_query");
}

#[test]
fn two_documents_are_paired_in_order() {
    let documents = vec!["a".to_string(), "b".to_string()];
    let embeddings = vec![vec![0.5, 1.5], vec![2.5, 3.5]];
    let outcome = Ok(Some(ApiResponse::Success(response(embeddings.clone()))));
    let pairs = EmbeddingModel::embed_outcome(documents.clone(), outcome).unwrap();
    assert_eq!(pairs.len(), 2);
    for i in 0..2 {
        assert_eq!(pairs[i].document, documents[i]);
        assert_eq!(pairs[i].vec, embeddings[i]);
    }
}

#[test]
fn pairing_keeps_order_for_longer_lists() {
    let documents: Vec<String> = (0..5).map(|i| format!("doc{}", i)).collect();
    let embeddings: Vec<u32> = vec![10, 11, 12, 13, 14];
    let pairs = pair_embeddings(documents.clone(), embeddings.clone()).unwrap();
    assert_eq!(pairs.len(), 5);
    for i in 0..5 {
        assert_eq!(pairs[i].document, documents[i]);
        assert_eq!(pairs[i].vec, embeddings[i]);
    }
}

#[test]
fn no_documents_give_no_pairs() {
    let pairs = pair_embeddings(Vec::new(), Vec::<Vec<f64>>::new()).unwrap();
    assert!(pairs.is_empty());
}

#[test]
fn count_mismatch_is_a_document_error() {
    let documents = vec!["a".to_string(), "b".to_string()];
    let outcome = Ok(Some(ApiResponse::Success(response(vec![vec![1.0], vec![2.0], vec![3.0]]))));
    match EmbeddingModel::embed_outcome(documents, outcome) {
        Err(EmbeddingError::DocumentError(text)) => assert_eq!(text, "Expected 2 embeddings, got 3"),
        other => panic!("unexpected: {:?}", other),
    }
}

#[test]
fn fewer_embeddings_than_documents_is_a_document_error() {
    let documents: Vec<String> = (0..12).map(|i| i.to_string()).collect();
    match pair_embeddings(documents, vec![1u8]) {
        Err(EmbeddingError::DocumentError(text)) => assert_eq!(text, "Expected 12 embeddings, got 1"),
        other => panic!("unexpected: {:?}", other),
    }
    match pair_embeddings(vec!["a".to_string()], Vec::<u8>::new()) {
        Err(EmbeddingError::DocumentError(text)) => assert_eq!(text, "Expected 1 embeddings, got 0"),
        other => panic!("unexpected: {:?}", other),
    }
}

#[test]
fn provider_error_keeps_the_message() {
    let outcome: Result<Option<ApiResponse<EmbeddingResponse<Vec<f64>>>>, String> =
        Ok(Some(ApiResponse::Failure(ApiErrorResponse { message: "invalid api token".to_string() })));
    match EmbeddingModel::embed_outcome(vec!["a".to_string()], outcome) {
        Err(EmbeddingError::ProviderError(text)) => assert_eq!(text, "invalid api token"),
        other => panic!("unexpected: {:?}", other),
    }
}

#[test]
fn transport_failure_is_an_http_error() {
    let outcome: Result<Option<ApiResponse<EmbeddingResponse<Vec<f64>>>>, String> =
        Err("connection refused".to_string());
    match EmbeddingModel::embed_outcome(vec!["a".to_string()], outcome) {
        Err(EmbeddingError::HttpError(text)) => assert_eq!(text, "connection refused"),
        other => panic!("unexpected: {:?}", other),
    }
}

#[test]
fn unrecognised_embedding_body_is_a_response_error() {
    let outcome: Result<Option<ApiResponse<EmbeddingResponse<Vec<f64>>>>, String> = Ok(None);
    assert!(matches!(
        EmbeddingModel::embed_outcome(vec!["a".to_string()], outcome),
        Err(EmbeddingError::ResponseError(_))
    ));
}
