use vstd::prelude::*;

use crate::text::push_str;

verus! {

#[verifier::external_type_specification]
#[verifier::external_body]
pub struct ExS3Client(aws_sdk_s3::Client);

/// The public URL of an object stored under `key`.
pub open spec fn object_url_spec(bucket: Seq<char>, region: Seq<char>, key: Seq<char>) -> Seq<
    char,
> {
    "https://"@ + bucket + ".s3."@ + region + ".amazonaws.com/"@ + key
}

/// How a fixed phrase gets a playable URL.
pub enum CacheStep {
    /// Audio is already stored: play it from this URL.
    Reuse(String),
    /// Nothing is stored yet: synthesize the phrase and upload it under the key.
    Synthesize,
}

/// The object store where synthesized audio is hosted.
pub struct S3Service {
    client: aws_sdk_s3::Client,
    bucket: String,
    region: String,
}

impl S3Service {
    pub closed spec fn bucket_name(&self) -> Seq<char> {
        self.bucket@
    }

    pub closed spec fn region_name(&self) -> Seq<char> {
        self.region@
    }

    pub fn new(client: aws_sdk_s3::Client, bucket: String, region: String) -> (r: S3Service)
        ensures
            r.bucket_name() == bucket@,
            r.region_name() == region@,
    {
        S3Service { client, bucket, region }
    }

    /// The client that performs uploads.
    pub fn client(&self) -> &aws_sdk_s3::Client {
        &self.client
    }

    pub fn bucket(&self) -> (r: &str)
        ensures
            r@ == self.bucket_name(),
    {
        self.bucket.as_str()
    }

    pub fn region(&self) -> (r: &str)
        ensures
            r@ == self.region_name(),
    {
        self.region.as_str()
    }

    /// Audio of fixed phrases is cached by key: when an object is stored under
    /// the key it is reused, otherwise the phrase is synthesized and uploaded.
    pub fn cache_step(&self, key: &str, exists: bool) -> (r: CacheStep)
        ensures
            exists ==> (r matches CacheStep::Reuse(url) && url@ == object_url_spec(
                self.bucket_name(),
                self.region_name(),
                key@,
            )),
            !exists ==> r is Synthesize,
    {
        if exists {
            CacheStep::Reuse(self.get_url(key))
        } else {
            CacheStep::Synthesize
        }
    }

    /// The public URL of the object stored under `key`.
    pub fn get_url(&self, key: &str) -> (r: String)
        ensures
            r@ == object_url_spec(self.bucket_name(), self.region_name(), key@),
    {
        let mut u = String::new();
        push_str(&mut u, "https://");
        push_str(&mut u, self.bucket.as_str());
        push_str(&mut u, ".s3.");
        push_str(&mut u, self.region.as_str());
        push_str(&mut u, ".amazonaws.com/");
        push_str(&mut u, key);
        u
    }
}

} // verus!
