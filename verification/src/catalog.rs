//! The product catalog as the storefront serves it: pages of products, each
//! with its variants and its images.

use vstd::prelude::*;

verus! {

/// One purchasable form of a product.
#[derive(Clone, Debug, PartialEq, Eq)]
pub struct Variant {
    /// Identifier, unique within the catalog.
    pub id: u64,
    pub title: String,
    /// Price as the storefront wrote it; never reformatted.
    pub price: String,
    pub sku: String,
    pub barcode: Option<String>,
    /// Weight in grams, where the storefront gives one.
    pub grams: Option<u32>,
}

/// One picture of a product.
#[derive(Clone, Debug, PartialEq, Eq)]
pub struct Images {
    /// Display order, counted from 1.
    pub position: u32,
    /// Where the picture is served from.
    pub src: String,
}

/// One product of the catalog.
#[derive(Clone, Debug, PartialEq, Eq)]
pub struct Product {
    /// Slug that identifies the product within the catalog.
    pub handle: String,
    pub title: String,
    pub vendor: String,
    pub product_type: String,
    pub variants: Vec<Variant>,
    pub images: Vec<Images>,
}

/// One page of the catalog.  A page without products marks the end of the
/// catalog.
#[derive(Clone, Debug, PartialEq, Eq)]
pub struct ProductsResponse {
    pub products: Vec<Product>,
}

/// What a [`Variant`] holds, as mathematical values.
pub struct VariantView {
    pub id: u64,
    pub title: Seq<char>,
    pub price: Seq<char>,
    pub sku: Seq<char>,
    pub barcode: Option<Seq<char>>,
    pub grams: Option<u32>,
}

/// What an [`Images`] entry holds, as mathematical values.
pub struct ImagesView {
    pub position: u32,
    pub src: Seq<char>,
}

/// What a [`Product`] holds, as mathematical values.
pub struct ProductView {
    pub handle: Seq<char>,
    pub title: Seq<char>,
    pub vendor: Seq<char>,
    pub product_type: Seq<char>,
    pub variants: Seq<VariantView>,
    pub images: Seq<ImagesView>,
}

impl View for Variant {
    type V = VariantView;

    open spec fn view(&self) -> VariantView {
        VariantView {
            id: self.id,
            title: self.title@,
            price: self.price@,
            sku: self.sku@,
            barcode: match self.barcode {
                Some(text) => Some(text@),
                None => None,
            },
            grams: self.grams,
        }
    }
}

impl View for Images {
    type V = ImagesView;

    open spec fn view(&self) -> ImagesView {
        ImagesView { position: self.position, src: self.src@ }
    }
}

impl View for Product {
    type V = ProductView;

    open spec fn view(&self) -> ProductView {
        ProductView {
            handle: self.handle@,
            title: self.title@,
            vendor: self.vendor@,
            product_type: self.product_type@,
            variants: self.variants@.map_values(|v: Variant| v@),
            images: self.images@.map_values(|i: Images| i@),
        }
    }
}

impl View for ProductsResponse {
    type V = Seq<ProductView>;

    /// The products of the page, in the order in which they were served.
    open spec fn view(&self) -> Seq<ProductView> {
        self.products@.map_values(|p: Product| p@)
    }
}

impl ProductsResponse {
    /// The number of products on the page.
    pub fn len(&self) -> (n: usize)
        ensures
            n == self@.len(),
    {
        self.products.len()
    }

    /// Whether the page has no products, which marks the end of the catalog.
    pub fn is_empty(&self) -> (empty: bool)
        ensures
            empty == (self@.len() == 0),
    {
        self.products.len() == 0
    }
}

} // verus!
