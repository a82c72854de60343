//! Image generation request and response types.
use vstd::prelude::*;

use crate::error::opt_view;
use crate::types::calls::{last_set, lemma_map_drop_last};
use crate::types::chat::BuildError;
use crate::types::text::IntoText;

verus! {

/// A request to generate images.
///
/// Construct with [`ImageGenerationRequest::builder`].
#[derive(Debug, Clone, PartialEq)]
pub struct ImageGenerationRequest {
    /// Image model identifier (e.g. `"gpt-image-1"`).
    pub model: String,
    /// Text prompt describing the desired image.
    pub prompt: String,
    /// Number of images to generate (1–10).
    pub n: Option<u32>,
    /// Output size, e.g. `"1024x1024"`.
    pub size: Option<String>,
    /// Provider-specific quality (e.g. `"standard"`, `"hd"`).
    pub quality: Option<String>,
    /// Provider-specific background (e.g. `"transparent"`).
    pub background: Option<String>,
}

impl ImageGenerationRequest {
    /// Starts a builder for an image generation request.
    pub fn builder() -> (r: ImageGenerationRequestBuilder)
        ensures
            r@ == (ImageGenerationRequestBuilderModel {
                model: None,
                prompt: None,
                n: None,
                size: None,
                quality: None,
                background: None,
            }),
            r@ == image_after(Seq::empty()),
    {
        ImageGenerationRequestBuilder {
            model: None,
            prompt: None,
            n: None,
            size: None,
            quality: None,
            background: None,
        }
    }
}

/// The fields set on an [`ImageGenerationRequestBuilder`].
pub struct ImageGenerationRequestBuilderModel {
    /// The model, once set.
    pub model: Option<Seq<char>>,
    /// The prompt, once set.
    pub prompt: Option<Seq<char>>,
    /// The number of images, once set.
    pub n: Option<u32>,
    /// The size, once set.
    pub size: Option<Seq<char>>,
    /// The quality, once set.
    pub quality: Option<Seq<char>>,
    /// The background, once set.
    pub background: Option<Seq<char>>,
}

/// Builder for [`ImageGenerationRequest`].
///
/// `model` and `prompt` are required.
#[derive(Debug, Clone)]
pub struct ImageGenerationRequestBuilder {
    model: Option<String>,
    prompt: Option<String>,
    n: Option<u32>,
    size: Option<String>,
    quality: Option<String>,
    background: Option<String>,
}

impl View for ImageGenerationRequestBuilder {
    type V = ImageGenerationRequestBuilderModel;

    closed spec fn view(&self) -> ImageGenerationRequestBuilderModel {
        ImageGenerationRequestBuilderModel {
            model: opt_view(self.model),
            prompt: opt_view(self.prompt),
            n: self.n,
            size: opt_view(self.size),
            quality: opt_view(self.quality),
            background: opt_view(self.background),
        }
    }
}

impl ImageGenerationRequestBuilder {
    /// Sets the image model.
    pub fn model<T: IntoText>(self, model: T) -> (r: Self)
        ensures
            r@ == (ImageGenerationRequestBuilderModel { model: Some(model.text_view()), ..self@ }),
            r@ == image_step(self@, ImageCall::Model(model.text_view())),
    {
        let mut b = self;
        b.model = Some(model.into_text());
        b
    }

    /// Sets the prompt.
    pub fn prompt<T: IntoText>(self, prompt: T) -> (r: Self)
        ensures
            r@ == (ImageGenerationRequestBuilderModel { prompt: Some(prompt.text_view()), ..self@ }),
            r@ == image_step(self@, ImageCall::Prompt(prompt.text_view())),
    {
        let mut b = self;
        b.prompt = Some(prompt.into_text());
        b
    }

    /// Sets the number of images to generate.
    pub fn n(self, n: u32) -> (r: Self)
        ensures
            r@ == (ImageGenerationRequestBuilderModel { n: Some(n), ..self@ }),
            r@ == image_step(self@, ImageCall::N(n)),
    {
        let mut b = self;
        b.n = Some(n);
        b
    }

    /// Sets the output size.
    pub fn size<T: IntoText>(self, size: T) -> (r: Self)
        ensures
            r@ == (ImageGenerationRequestBuilderModel { size: Some(size.text_view()), ..self@ }),
            r@ == image_step(self@, ImageCall::Size(size.text_view())),
    {
        let mut b = self;
        b.size = Some(size.into_text());
        b
    }

    /// Sets the quality.
    pub fn quality<T: IntoText>(self, quality: T) -> (r: Self)
        ensures
            r@ == (ImageGenerationRequestBuilderModel { quality: Some(quality.text_view()), ..self@ }),
            r@ == image_step(self@, ImageCall::Quality(quality.text_view())),
    {
        let mut b = self;
        b.quality = Some(quality.into_text());
        b
    }

    /// Sets the background.
    pub fn background<T: IntoText>(self, background: T) -> (r: Self)
        ensures
            r@ == (ImageGenerationRequestBuilderModel {
                background: Some(background.text_view()),
                ..self@
            }),
            r@ == image_step(self@, ImageCall::Background(background.text_view())),
    {
        let mut b = self;
        b.background = Some(background.into_text());
        b
    }

    /// Finalizes the request.
    ///
    /// # Errors
    ///
    /// Returns [`BuildError::MissingModel`] or [`BuildError::MissingPrompt`] if
    /// the respective field was not set (the model is checked first).
    pub fn build(self) -> (r: Result<ImageGenerationRequest, BuildError>)
        ensures
            image_built(self@, r),
    {
        let model = match self.model {
            Some(m) => m,
            None => return Err(BuildError::MissingModel),
        };
        let prompt = match self.prompt {
            Some(p) => p,
            None => return Err(BuildError::MissingPrompt),
        };
        Ok(
            ImageGenerationRequest {
                model,
                prompt,
                n: self.n,
                size: self.size,
                quality: self.quality,
                background: self.background,
            },
        )
    }
}

/// The response from `POST /v1/images/generations`.
#[derive(Debug, Clone, PartialEq)]
pub struct ImageGenerationResponse {
    /// Unix epoch seconds at creation.
    pub created: u64,
    /// One entry per generated image.
    pub data: Vec<GeneratedImage>,
}

/// A single generated image.
#[derive(Debug, Clone, PartialEq)]
pub struct GeneratedImage {
    /// URL to the generated image, when the provider returns a hosted asset.
    pub url: Option<String>,
    /// Base64-encoded image bytes, when the provider inlines the result.
    pub b64_json: Option<String>,
    /// Prompt as rewritten by the provider, when applicable.
    pub revised_prompt: Option<String>,
}

/// One call on an [`ImageGenerationRequestBuilder`].
pub enum ImageCall {
    /// `model` with this id.
    Model(Seq<char>),
    /// `prompt` with this text.
    Prompt(Seq<char>),
    /// `n` with this count.
    N(u32),
    /// `size` with this text.
    Size(Seq<char>),
    /// `quality` with this text.
    Quality(Seq<char>),
    /// `background` with this text.
    Background(Seq<char>),
}

/// The fields of an image builder after one more call.
pub open spec fn image_step(
    m: ImageGenerationRequestBuilderModel,
    c: ImageCall,
) -> ImageGenerationRequestBuilderModel {
    match c {
        ImageCall::Model(x) => ImageGenerationRequestBuilderModel { model: Some(x), ..m },
        ImageCall::Prompt(x) => ImageGenerationRequestBuilderModel { prompt: Some(x), ..m },
        ImageCall::N(x) => ImageGenerationRequestBuilderModel { n: Some(x), ..m },
        ImageCall::Size(x) => ImageGenerationRequestBuilderModel { size: Some(x), ..m },
        ImageCall::Quality(x) => ImageGenerationRequestBuilderModel { quality: Some(x), ..m },
        ImageCall::Background(x) => ImageGenerationRequestBuilderModel {
            background: Some(x),
            ..m
        },
    }
}

/// The fields of `ImageGenerationRequest::builder()` after `calls`, in order.
pub open spec fn image_after(calls: Seq<ImageCall>) -> ImageGenerationRequestBuilderModel
    decreases calls.len(),
{
    if calls.len() == 0 {
        ImageGenerationRequestBuilderModel {
            model: None,
            prompt: None,
            n: None,
            size: None,
            quality: None,
            background: None,
        }
    } else {
        image_step(image_after(calls.drop_last()), calls.last())
    }
}

/// The model a call gives, if it is a `model` call.
pub open spec fn call_model(c: ImageCall) -> Option<Seq<char>> {
    match c {
        ImageCall::Model(x) => Some(x),
        _ => None,
    }
}

/// The prompt a call gives, if it is a `prompt` call.
pub open spec fn call_prompt(c: ImageCall) -> Option<Seq<char>> {
    match c {
        ImageCall::Prompt(x) => Some(x),
        _ => None,
    }
}

/// The count a call gives, if it is an `n` call.
pub open spec fn call_n(c: ImageCall) -> Option<u32> {
    match c {
        ImageCall::N(x) => Some(x),
        _ => None,
    }
}

/// The size a call gives, if it is a `size` call.
pub open spec fn call_size(c: ImageCall) -> Option<Seq<char>> {
    match c {
        ImageCall::Size(x) => Some(x),
        _ => None,
    }
}

/// The quality a call gives, if it is a `quality` call.
pub open spec fn call_quality(c: ImageCall) -> Option<Seq<char>> {
    match c {
        ImageCall::Quality(x) => Some(x),
        _ => None,
    }
}

/// The background a call gives, if it is a `background` call.
pub open spec fn call_background(c: ImageCall) -> Option<Seq<char>> {
    match c {
        ImageCall::Background(x) => Some(x),
        _ => None,
    }
}

/// Whether `r` is what `build` gives on a builder with fields `m`: the
/// missing-model error without a model, else the missing-prompt error
/// without a prompt, else the request of those fields.
pub open spec fn image_built(
    m: ImageGenerationRequestBuilderModel,
    r: Result<ImageGenerationRequest, BuildError>,
) -> bool {
    match m.model {
        None => r == Err::<ImageGenerationRequest, BuildError>(BuildError::MissingModel),
        Some(model) => match m.prompt {
            None => r == Err::<ImageGenerationRequest, BuildError>(BuildError::MissingPrompt),
            Some(prompt) => r matches Ok(req) && {
                &&& req.model@ == model
                &&& req.prompt@ == prompt
                &&& req.n == m.n
                &&& opt_view(req.size) == m.size
                &&& opt_view(req.quality) == m.quality
                &&& opt_view(req.background) == m.background
            },
        },
    }
}

/// Law: whatever sequence of setter calls follows
/// `ImageGenerationRequest::builder()`, every field of the builder is the
/// value of the last call that set it (none if no call did), so `build`
/// fails with `MissingModel` when `model` was never called (whatever was
/// done with the prompt), else with `MissingPrompt` when `prompt` was never
/// called, and otherwise gives the request of the last values set.
pub proof fn law_image_builder(calls: Seq<ImageCall>, r: Result<ImageGenerationRequest, BuildError>)
    ensures
        image_after(calls) == (ImageGenerationRequestBuilderModel {
            model: last_set(calls.map_values(|c: ImageCall| call_model(c))),
            prompt: last_set(calls.map_values(|c: ImageCall| call_prompt(c))),
            n: last_set(calls.map_values(|c: ImageCall| call_n(c))),
            size: last_set(calls.map_values(|c: ImageCall| call_size(c))),
            quality: last_set(calls.map_values(|c: ImageCall| call_quality(c))),
            background: last_set(calls.map_values(|c: ImageCall| call_background(c))),
        }),
        last_set(calls.map_values(|c: ImageCall| call_model(c))) is None ==> (image_built(
            image_after(calls),
            r,
        ) <==> r == Err::<ImageGenerationRequest, BuildError>(BuildError::MissingModel)),
        last_set(calls.map_values(|c: ImageCall| call_model(c))) is Some && last_set(
            calls.map_values(|c: ImageCall| call_prompt(c)),
        ) is None ==> (image_built(image_after(calls), r) <==> r == Err::<
            ImageGenerationRequest,
            BuildError,
        >(BuildError::MissingPrompt)),
    decreases calls.len(),
{
    if calls.len() > 0 {
        law_image_builder(calls.drop_last(), r);
        lemma_map_drop_last(calls, |c: ImageCall| call_model(c));
        lemma_map_drop_last(calls, |c: ImageCall| call_prompt(c));
        lemma_map_drop_last(calls, |c: ImageCall| call_n(c));
        lemma_map_drop_last(calls, |c: ImageCall| call_size(c));
        lemma_map_drop_last(calls, |c: ImageCall| call_quality(c));
        lemma_map_drop_last(calls, |c: ImageCall| call_background(c));
    }
}

} // verus!
