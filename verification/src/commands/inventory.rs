//! Catalogue command records; the catalogue commands of this boundary are not implemented
//! yet and refuse every request.
use vstd::prelude::*;

verus! {

#[derive(Debug)]
pub struct ProductSummary {
    pub id: String,
    pub name: String,
    pub category_id: Option<String>,
    pub barcode: Option<String>,
    pub is_active: bool,
}

#[derive(Debug)]
pub struct ProductSearchRequest {
    pub branch_id: String,
    pub query: Option<String>,
    pub category_id: Option<String>,
    pub limit: Option<u32>,
}

#[derive(Debug)]
pub struct UpsertProductRequest {
    pub id: Option<String>,
    pub name: String,
    pub category_id: Option<String>,
    pub barcode: Option<String>,
    pub sku: Option<String>,
    pub description: Option<String>,
}

/// Lists product summaries; not implemented yet, so every request is refused.
pub fn list_products(_request: ProductSearchRequest) -> (r: Result<Vec<ProductSummary>, String>)
    ensures
        r matches Err(m) && m@ == "Product repository/service is not implemented yet"@,
{
    Err(String::from_str("Product repository/service is not implemented yet"))
}

/// Creates or updates a product; not implemented yet, so every request is refused.
pub fn upsert_product(_request: UpsertProductRequest) -> (r: Result<String, String>)
    ensures
        r matches Err(m) && m@ == "Product service is not implemented yet"@,
{
    Err(String::from_str("Product service is not implemented yet"))
}

} // verus!
