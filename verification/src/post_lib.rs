//! Payloads and responses for the post endpoints of a DeSo node.

use vstd::prelude::*;
use std::collections::HashMap;
use crate::errors::DesoError;

verus! {

/// A post as the node reports it.
#[derive(Debug)]
pub struct PostEntryResponse {
    /// Hex of the post hash: the unique identifier of the post.
    pub post_hash_hex: String,
    /// Public key of the poster.
    pub poster_public_key: String,
    /// The text of the post.
    pub body: String,
    /// Any image URLs attached to the post.
    pub image_urls: Option<Vec<String>>,
    /// Whether the post has unlockable content.
    pub has_unlockable: bool,
    /// Free-form metadata of the post.
    pub extra_data: HashMap<String, String>,
    /// How many NFT copies were minted of the post.
    pub copies_minted: u64,
    /// When the post was made, in nanoseconds.
    pub timestamp: u128,
}

/// The node's response to a single-post lookup.
#[derive(Debug)]
pub struct SinglePostResponse {
    /// The post that was found.
    pub post: PostEntryResponse,
}

/// The node's response to a submitted post transaction.
#[derive(Debug)]
pub struct SubmittedTransaction {
    /// The post entry the node created for the transaction.
    pub post_entry_response: PostEntryResponse,
}

/// The main data to post a new post on Deso.
#[derive(Debug)]
pub struct SubmitPostData {
    /// Public key of the user making a new post, editing a post, or making a
    /// comment.
    pub public_key: String,
    /// Only used if making a comment: the post hash hex of the post being
    /// commented on.
    pub parent_post_hash_hex: Option<String>,
    /// The body of the post.
    pub body_obj: SubmitPostBodyObject,
    /// Min fee rate in nanos per KB.
    pub fee_rate: u64,
    /// Used to "delete" a post.
    pub is_hidden: bool,
    /// An optional map of any metadata for the post.
    pub extra_data: Option<HashMap<String, String>>,
}

/// A request for a single post.
#[derive(Debug)]
pub struct GetSinglePost {
    /// Hex of the post hash to fetch.
    pub post_hash_hex: String,
    /// How many comments to fetch with it.
    pub comment_limit: u32,
}

/// Body of a Deso post: the string content and any images (optional) or
/// videos (optional).
#[derive(Debug)]
pub struct SubmitPostBodyObject {
    /// The text of the post.
    pub body: String,
    /// Any image URLs for the post.
    pub image_urls: Option<Vec<String>>,
    /// Any video URLs for the post.
    pub video_urls: Option<Vec<String>>,
}

/// Builder for `SubmitPostData`.
#[derive(Debug)]
pub struct SubmitPostDataBuilder {
    /// Public key of the user making a new post, editing a post, or making a
    /// comment.
    pub public_key: Option<String>,
    /// Only used if making a comment: the post hash hex of the post being
    /// commented on.
    pub parent_post_hash_hex: Option<String>,
    /// The body of the post.
    pub body: Option<String>,
    /// Any and all images for the post.
    pub image_urls: Option<Vec<String>>,
    /// Any and all videos for the post.
    pub video_urls: Option<Vec<String>>,
    /// Min fee rate in nanos per KB, defaults to 1250.
    pub fee_rate: Option<u64>,
    /// Used to "delete" a post, defaults to false.
    pub is_hidden: Option<bool>,
    /// An optional map of any metadata for the post.
    pub extra_data: Option<HashMap<String, String>>,
}

impl SubmitPostDataBuilder {
    /// A builder with the fee rate and hidden flag at their defaults and
    /// every other field unset.
    pub fn new() -> (r: Self)
        ensures
            r.public_key is None,
            r.parent_post_hash_hex is None,
            r.body is None,
            r.image_urls is None,
            r.video_urls is None,
            r.fee_rate == Some(1250u64),
            r.is_hidden == Some(false),
            r.extra_data is None,
    {
        SubmitPostDataBuilder {
            public_key: None,
            parent_post_hash_hex: None,
            body: None,
            image_urls: None,
            video_urls: None,
            fee_rate: Some(1250),
            is_hidden: Some(false),
            extra_data: None,
        }
    }

    /// Sets the public key of the user making the post.
    pub fn public_key(self, public_key: String) -> (r: Self)
        ensures
            r == (SubmitPostDataBuilder { public_key: Some(public_key), ..self }),
    {
        SubmitPostDataBuilder { public_key: Some(public_key), ..self }
    }

    /// Sets the post hash hex of the post being commented on.
    pub fn parent_post_hash_hex(self, post_hash_hex: String) -> (r: Self)
        ensures
            r == (SubmitPostDataBuilder { parent_post_hash_hex: Some(post_hash_hex), ..self }),
    {
        SubmitPostDataBuilder { parent_post_hash_hex: Some(post_hash_hex), ..self }
    }

    /// Sets the body of the post.
    pub fn body(self, body: String) -> (r: Self)
        ensures
            r == (SubmitPostDataBuilder { body: Some(body), ..self }),
    {
        SubmitPostDataBuilder { body: Some(body), ..self }
    }

    /// Sets the images for the post.
    pub fn image_urls(self, image_urls: Vec<String>) -> (r: Self)
        ensures
            r == (SubmitPostDataBuilder { image_urls: Some(image_urls), ..self }),
    {
        SubmitPostDataBuilder { image_urls: Some(image_urls), ..self }
    }

    /// Sets the videos for the post.
    pub fn video_urls(self, video_urls: Vec<String>) -> (r: Self)
        ensures
            r == (SubmitPostDataBuilder { video_urls: Some(video_urls), ..self }),
    {
        SubmitPostDataBuilder { video_urls: Some(video_urls), ..self }
    }

    /// Sets the min fee rate in nanos per KB.
    pub fn fee_rate(self, fee_rate: u64) -> (r: Self)
        ensures
            r == (SubmitPostDataBuilder { fee_rate: Some(fee_rate), ..self }),
    {
        SubmitPostDataBuilder { fee_rate: Some(fee_rate), ..self }
    }

    /// Sets whether the post is hidden.
    pub fn is_hidden(self, is_hidden: bool) -> (r: Self)
        ensures
            r == (SubmitPostDataBuilder { is_hidden: Some(is_hidden), ..self }),
    {
        SubmitPostDataBuilder { is_hidden: Some(is_hidden), ..self }
    }

    /// Sets the metadata map for the post.
    pub fn extra_data(self, extra_data: HashMap<String, String>) -> (r: Self)
        ensures
            r == (SubmitPostDataBuilder { extra_data: Some(extra_data), ..self }),
    {
        SubmitPostDataBuilder { extra_data: Some(extra_data), ..self }
    }

    /// Builds the `SubmitPostData`. Fails exactly when the body or the
    /// public key was never set.
    pub fn build(self) -> (r: Result<SubmitPostData, DesoError>)
        requires
            self.fee_rate is Some,
            self.is_hidden is Some,
        ensures
            r is Err <==> (self.body is None || self.public_key is None),
            self.body is None ==> (r matches Err(DesoError::SubmitPostDataBuilderError(f))
                && f@ == "Body"@),
            (self.body is Some && self.public_key is None) ==> (r matches Err(
                DesoError::SubmitPostDataBuilderError(f),
            ) && f@ == "Poster Public Key"@),
            r matches Ok(d) ==> {
                &&& d.public_key == self.public_key->0
                &&& d.parent_post_hash_hex == self.parent_post_hash_hex
                &&& d.body_obj.body == self.body->0
                &&& d.body_obj.image_urls == self.image_urls
                &&& d.body_obj.video_urls == self.video_urls
                &&& d.fee_rate == self.fee_rate->0
                &&& d.is_hidden == self.is_hidden->0
                &&& d.extra_data == self.extra_data
            },
    {
        if self.body.is_none() {
            return Err(DesoError::SubmitPostDataBuilderError("Body".to_owned()));
        }
        if self.public_key.is_none() {
            return Err(DesoError::SubmitPostDataBuilderError("Poster Public Key".to_owned()));
        }
        let body_object = SubmitPostBodyObject {
            body: self.body.unwrap(),
            image_urls: self.image_urls,
            video_urls: self.video_urls,
        };
        Ok(
            SubmitPostData {
                public_key: self.public_key.unwrap(),
                parent_post_hash_hex: self.parent_post_hash_hex,
                body_obj: body_object,
                fee_rate: self.fee_rate.unwrap(),
                is_hidden: self.is_hidden.unwrap(),
                extra_data: self.extra_data,
            },
        )
    }
}

} // verus!
