//! Document ingestion: extractor selection, text extraction decisions,
//! paragraph chunking, graph query construction and the job lifecycle of one
//! ingestion run.

pub mod text;
pub mod target;
pub mod extractors;
pub mod extraction;
pub mod chunking;
pub mod stores;
pub mod pipeline;

pub use target::{GraphDbType, IngestionTarget};
pub use extractors::{
    get_extractor, select_for_lowercase, DocExtractor, EpubExtractor, Extractor, ExtractorKind, MarkdownExtractor,
    PdfExtractor, TextExtractor,
};
pub use extraction::{
    after_action, epub_text, first_action, ocr_text, strip_html_tags, ExtractAction, ExtractError,
    ExtractNext,
};
pub use chunking::{chunk_document, chunk_tags, Chunk, ChunkTag, MetadataShape, TagValue};
pub use stores::{
    create_graph_store, ChromaDbStore, FalkorDbStore, GraphBackend, GraphConfig, GraphitiStore,
    Neo4jStore, StoreError,
};
pub use pipeline::{IngestionPipeline, IngestionRun, JobRecord, JobStatus, Step};
