use narrative_director::chunks::{LangDelimiters, ParagraphRetriever};
use narrative_director::grabber::EnglishParagraphRetriever;

#[test]
fn reader_gets_complete_sentence() {
    let sample_text = "This is a complete sentence.";

    let mut paragraph_retriever = ParagraphRetriever::new();
    assert_eq!(paragraph_retriever.load_chunks(sample_text), 1);

    let read_result = paragraph_retriever.get_chunk(0);
    assert!(read_result.is_some());

    let read_sentence = read_result.unwrap();
    assert_eq!(*read_sentence, String::from("This is a complete sentence."));
}

#[test]
fn reader_gets_incomplete_sentence() {
    let sample_text = "This is a complete sentence with no ending punctuation";

    let mut paragraph_retriever = ParagraphRetriever::new();
    assert_eq!(paragraph_retriever.load_chunks(sample_text), 1);

    let read_result = paragraph_retriever.get_chunk(0);
    assert!(read_result.is_some());

    let read_sentence = read_result.unwrap();
    assert_eq!(
        *read_sentence,
        String::from("This is a complete sentence with no ending punctuation")
    );
}

#[test]
fn reader_get_no_sentence_from_empty() {
    let mut paragraph_retriever = ParagraphRetriever::new();
    assert_eq!(paragraph_retriever.load_chunks(""), 0);

    let read_result = paragraph_retriever.get_chunk(0);
    assert!(read_result.is_none());
}

#[test]
fn reader_get_chunk_returns_only_paragraph() {
    let paragraph = String::from(
        "This is a complete paragraph. It contains four sentences. This is the first. Also, this is another.",
    );

    let mut paragraph_retriever = ParagraphRetriever::new();
    assert_eq!(paragraph_retriever.load_chunks(paragraph.as_str()), 1);

    let read_result = paragraph_retriever.get_chunk(0);
    assert!(read_result.is_some());

    let read_paragraph = read_result.unwrap();
    assert_eq!(*read_paragraph, paragraph);
}

#[test]
fn reader_get_next_chunk_returns_nothing_one_paragraph() {
    let paragraph = String::from(
        "This is a complete paragraph. It contains four sentences. This is the first. Also, this is another.",
    );

    let mut paragraph_retriever = ParagraphRetriever::new();
    assert_eq!(paragraph_retriever.load_chunks(paragraph.as_str()), 1);

    let read_result = paragraph_retriever.get_chunk(1);
    assert!(read_result.is_none());
}

#[test]
fn reader_get_next_chunk_returns_next_paragraph() {
    let first_paragraph = String::from(
        "This is a complete paragraph. It contains four sentences. This is the first. Also, this is another.",
    );
    let second_paragraph = String::from(
        "This is another paragraph. It still contains four sentences. This is the first. Besides, this is another.",
    );
    let mut text = String::new();
    text += first_paragraph.as_str();
    text += second_paragraph.as_str();

    let mut paragraph_retriever = ParagraphRetriever::new();
    assert_eq!(paragraph_retriever.load_chunks(text.as_str()), 2);

    let read_result = paragraph_retriever.get_chunk(1);
    assert!(read_result.is_some());

    let read_second_paragraph = read_result.unwrap();
    assert_eq!(*read_second_paragraph, second_paragraph);
}

#[test]
fn reader_get_next_chunk_returns_incomplete_paragraph() {
    let first_paragraph = String::from(
        "This is a complete paragraph. It contains four sentences. This is the first. Also, this is another.",
    );
    let second_paragraph = String::from(
        "This is another paragraph. It now contains three sentences. This is the first.",
    );
    let mut text = String::new();
    text += first_paragraph.as_str();
    text += second_paragraph.as_str();

    let mut paragraph_retriever = ParagraphRetriever::new();
    assert_eq!(paragraph_retriever.load_chunks(text.as_str()), 2);

    let read_result = paragraph_retriever.get_chunk(1);
    assert!(read_result.is_some());

    let read_second_paragraph = read_result.unwrap();
    assert_eq!(*read_second_paragraph, second_paragraph);
}

#[test]
fn reader_get_prev_chunk_returns_paragraph_from_two() {
    let first_paragraph = String::from(
        "This is a complete paragraph. It contains four sentences. This is the first. Also, this is another.",
    );
    let second_paragraph = String::from(
        "This is another paragraph. It still contains four sentences. This is the first. Besides, this is another.",
    );
    let mut text = String::new();
    text += first_paragraph.as_str();
    text += second_paragraph.as_str();

    let mut paragraph_retriever = ParagraphRetriever::new();
    assert_eq!(paragraph_retriever.load_chunks(text.as_str()), 2);

    assert!(paragraph_retriever.get_chunk(1).is_some());

    let read_result = paragraph_retriever.get_chunk(0);
    assert!(read_result.is_some());

    let read_paragraph = read_result.unwrap();
    assert_eq!(*read_paragraph, first_paragraph);
}

#[test]
fn reader_len_counts_chunks() {
    let mut paragraph_retriever = ParagraphRetriever::new();
    assert_eq!(paragraph_retriever.len(), 0);
    paragraph_retriever.load_chunks("One. Two. Three. Four. Five.");
    assert_eq!(paragraph_retriever.len(), 2);
}

#[test]
fn reader_delimiters_are_english_punctuation() {
    assert_eq!(LangDelimiters::English.value(), vec!['.', '?', '!']);
}

#[test]
fn lib_gets_complete_sentence() {
    let sample_text = "This is a complete sentence.";

    let mut paragraph_retriever = EnglishParagraphRetriever::new();
    assert_eq!(paragraph_retriever.load_chunks(sample_text), 1);

    let read_result = paragraph_retriever.get_chunk(0);
    assert!(read_result.is_some());

    let read_sentence = read_result.unwrap();
    assert_eq!(*read_sentence, String::from("This is a complete sentence."));
}

#[test]
fn lib_gets_incomplete_sentence() {
    let sample_text = "This is a complete sentence with no ending punctuation";

    let mut paragraph_retriever = EnglishParagraphRetriever::new();
    assert_eq!(paragraph_retriever.load_chunks(sample_text), 1);

    let read_result = paragraph_retriever.get_chunk(0);
    assert!(read_result.is_some());

    let read_sentence = read_result.unwrap();
    assert_eq!(
        *read_sentence,
        String::from("This is a complete sentence with no ending punctuation")
    );
}

#[test]
fn lib_get_no_sentence_from_empty() {
    let mut paragraph_retriever = EnglishParagraphRetriever::new();
    assert_eq!(paragraph_retriever.load_chunks(""), 0);

    let read_result = paragraph_retriever.get_chunk(0);
    assert!(read_result.is_none());
}

#[test]
fn lib_get_chunk_returns_only_paragraph() {
    let paragraph = String::from(
        "This is a complete paragraph. It contains four sentences. This is the first. Also, this is another.",
    );

    let mut paragraph_retriever = EnglishParagraphRetriever::new();
    assert_eq!(paragraph_retriever.load_chunks(paragraph.as_str()), 1);

    let read_result = paragraph_retriever.get_chunk(0);
    assert!(read_result.is_some());

    let read_paragraph = read_result.unwrap();
    assert_eq!(*read_paragraph, paragraph);
}

#[test]
fn lib_get_next_chunk_returns_nothing_one_paragraph() {
    let paragraph = String::from(
        "This is a complete paragraph. It contains four sentences. This is the first. Also, this is another.",
    );

    let mut paragraph_retriever = EnglishParagraphRetriever::new();
    assert_eq!(paragraph_retriever.load_chunks(paragraph.as_str()), 1);

    let read_result = paragraph_retriever.get_next_chunk();
    assert!(read_result.is_none());
}

#[test]
fn lib_get_next_chunk_returns_next_paragraph() {
    let first_paragraph = String::from(
        "This is a complete paragraph. It contains four sentences. This is the first. Also, this is another.",
    );
    let second_paragraph = String::from(
        "This is another paragraph. It still contains four sentences. This is the first. Besides, this is another.",
    );
    let mut text = String::new();
    text += first_paragraph.as_str();
    text += second_paragraph.as_str();

    let mut paragraph_retriever = EnglishParagraphRetriever::new();
    assert_eq!(paragraph_retriever.load_chunks(text.as_str()), 2);

    let read_result = paragraph_retriever.get_next_chunk();
    assert!(read_result.is_some());

    let read_second_paragraph = read_result.unwrap();
    assert_eq!(*read_second_paragraph, second_paragraph);
}

#[test]
fn lib_get_next_chunk_returns_incomplete_paragraph() {
    let first_paragraph = String::from(
        "This is a complete paragraph. It contains four sentences. This is the first. Also, this is another.",
    );
    let second_paragraph = String::from(
        "This is another paragraph. It now contains three sentences. This is the first.",
    );
    let mut text = String::new();
    text += first_paragraph.as_str();
    text += second_paragraph.as_str();

    let mut paragraph_retriever = EnglishParagraphRetriever::new();
    assert_eq!(paragraph_retriever.load_chunks(text.as_str()), 2);

    let read_result = paragraph_retriever.get_next_chunk();
    assert!(read_result.is_some());

    let read_second_paragraph = read_result.unwrap();
    assert_eq!(*read_second_paragraph, second_paragraph);
}

#[test]
fn get_prev_chunk_returns_nothing_one_paragraph() {
    let paragraph = String::from(
        "This is a complete paragraph. It contains four sentences. This is the first. Also, this is another.",
    );

    let mut paragraph_retriever = EnglishParagraphRetriever::new();
    assert_eq!(paragraph_retriever.load_chunks(paragraph.as_str()), 1);

    let read_result = paragraph_retriever.get_prev_chunk();
    assert!(read_result.is_none());
}

#[test]
fn lib_get_prev_chunk_returns_paragraph_from_two() {
    let first_paragraph = String::from(
        "This is a complete paragraph. It contains four sentences. This is the first. Also, this is another.",
    );
    let second_paragraph = String::from(
        "This is another paragraph. It still contains four sentences. This is the first. Besides, this is another.",
    );
    let mut text = String::new();
    text += first_paragraph.as_str();
    text += second_paragraph.as_str();

    let mut paragraph_retriever = EnglishParagraphRetriever::new();
    assert_eq!(paragraph_retriever.load_chunks(text.as_str()), 2);

    assert!(paragraph_retriever.get_next_chunk().is_some());

    let read_result = paragraph_retriever.get_prev_chunk();
    assert!(read_result.is_some());

    let read_paragraph = read_result.unwrap();
    assert_eq!(*read_paragraph, first_paragraph);
}

#[test]
fn chunks_concatenate_back_to_the_text() {
    let text = "One. Two? Three! Four. Five. Six";
    let mut paragraph_retriever = ParagraphRetriever::new();
    let count = paragraph_retriever.load_chunks(text);
    assert_eq!(count, 2);
    let joined: String =
        paragraph_retriever.paragraphs.iter().map(|p| p.as_str()).collect::<Vec<_>>().concat();
    assert_eq!(joined, text);
    assert_eq!(paragraph_retriever.get_chunk(0).unwrap(), "One. Two? Three! Four.");
    assert_eq!(paragraph_retriever.get_chunk(1).unwrap(), " Five. Six");
}

#[test]
fn text_grabber_gets_complete_sentence() {
    let sample_text = "This is a complete sentence.";

    let mut paragraph_retriever = EnglishParagraphRetriever::new();
    assert_eq!(paragraph_retriever.load_chunks(sample_text), 1);

    let read_result = paragraph_retriever.get_chunk(0);
    assert!(read_result.is_some());

    let read_sentence = read_result.unwrap();
    assert_eq!(*read_sentence, String::from("This is a complete sentence."));
}

#[test]
fn text_grabber_gets_incomplete_sentence() {
    let sample_text = "This is a complete sentence with no ending punctuation";

    let mut paragraph_retriever = EnglishParagraphRetriever::new();
    assert_eq!(paragraph_retriever.load_chunks(sample_text), 1);

    let read_result = paragraph_retriever.get_chunk(0);
    assert!(read_result.is_some());

    let read_sentence = read_result.unwrap();
    assert_eq!(
        *read_sentence,
        String::from("This is a complete sentence with no ending punctuation")
    );
}

#[test]
fn text_grabber_get_no_sentence_from_empty() {
    let mut paragraph_retriever = EnglishParagraphRetriever::new();
    assert_eq!(paragraph_retriever.load_chunks(""), 0);

    let read_result = paragraph_retriever.get_chunk(0);
    assert!(read_result.is_none());
}

#[test]
fn text_grabber_get_chunk_returns_only_paragraph() {
    let paragraph = String::from(
        "This is a complete paragraph. It contains four sentences. This is the first. Also, this is another.",
    );

    let mut paragraph_retriever = EnglishParagraphRetriever::new();
    assert_eq!(paragraph_retriever.load_chunks(paragraph.as_str()), 1);

    let read_result = paragraph_retriever.get_chunk(0);
    assert!(read_result.is_some());

    let read_paragraph = read_result.unwrap();
    assert_eq!(*read_paragraph, paragraph);
}

#[test]
fn text_grabber_get_next_chunk_returns_nothing_one_paragraph() {
    let paragraph = String::from(
        "This is a complete paragraph. It contains four sentences. This is the first. Also, this is another.",
    );

    let mut paragraph_retriever = EnglishParagraphRetriever::new();
    assert_eq!(paragraph_retriever.load_chunks(paragraph.as_str()), 1);

    let read_result = paragraph_retriever.get_chunk(1);
    assert!(read_result.is_none());
}

#[test]
fn text_grabber_get_next_chunk_returns_next_paragraph() {
    let first_paragraph = String::from(
        "This is a complete paragraph. It contains four sentences. This is the first. Also, this is another.",
    );
    let second_paragraph = String::from(
        "This is another paragraph. It still contains four sentences. This is the first. Besides, this is another.",
    );
    let mut text = String::new();
    text += first_paragraph.as_str();
    text += second_paragraph.as_str();

    let mut paragraph_retriever = EnglishParagraphRetriever::new();
    assert_eq!(paragraph_retriever.load_chunks(text.as_str()), 2);

    let read_result = paragraph_retriever.get_chunk(1);
    assert!(read_result.is_some());

    let read_second_paragraph = read_result.unwrap();
    assert_eq!(*read_second_paragraph, second_paragraph);
}

#[test]
fn text_grabber_get_next_chunk_returns_incomplete_paragraph() {
    let first_paragraph = String::from(
        "This is a complete paragraph. It contains four sentences. This is the first. Also, this is another.",
    );
    let second_paragraph = String::from(
        "This is another paragraph. It now contains three sentences. This is the first.",
    );
    let mut text = String::new();
    text += first_paragraph.as_str();
    text += second_paragraph.as_str();

    let mut paragraph_retriever = EnglishParagraphRetriever::new();
    assert_eq!(paragraph_retriever.load_chunks(text.as_str()), 2);

    let read_result = paragraph_retriever.get_chunk(1);
    assert!(read_result.is_some());

    let read_second_paragraph = read_result.unwrap();
    assert_eq!(*read_second_paragraph, second_paragraph);
}

#[test]
fn text_grabber_get_prev_chunk_returns_paragraph_from_two() {
    let first_paragraph = String::from(
        "This is a complete paragraph. It contains four sentences. This is the first. Also, this is another.",
    );
    let second_paragraph = String::from(
        "This is another paragraph. It still contains four sentences. This is the first. Besides, this is another.",
    );
    let mut text = String::new();
    text += first_paragraph.as_str();
    text += second_paragraph.as_str();

    let mut paragraph_retriever = EnglishParagraphRetriever::new();
    assert_eq!(paragraph_retriever.load_chunks(text.as_str()), 2);

    assert!(paragraph_retriever.get_chunk(1).is_some());

    let read_result = paragraph_retriever.get_chunk(0);
    assert!(read_result.is_some());

    let read_paragraph = read_result.unwrap();
    assert_eq!(*read_paragraph, first_paragraph);
}
