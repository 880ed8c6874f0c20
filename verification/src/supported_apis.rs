//! The catalog of the services that can be addressed, with the aliases and
//! the versions of each.

use crate::text::{copy_strings, cut_once, has_string, same, split_once};
use vstd::prelude::*;

verus! {

/// The model of a [`SupportedApi`].
pub struct SupportedApiView {
    pub name: Seq<char>,
    pub title: Seq<char>,
    pub category: Seq<char>,
    pub aliases: Seq<Seq<char>>,
    pub versions: Seq<Seq<char>>,
}

/// A service of the catalog.
#[derive(Debug)]
pub struct SupportedApi {
    /// The name under which the discovery directory lists the service.
    pub name: String,
    pub title: String,
    pub category: String,
    /// Other names by which the service can be asked for.
    pub aliases: Vec<String>,
    /// The versions that can be addressed; the first is the default.
    pub versions: Vec<String>,
}

impl View for SupportedApi {
    type V = SupportedApiView;

    open spec fn view(&self) -> SupportedApiView {
        SupportedApiView {
            name: self.name@,
            title: self.title@,
            category: self.category@,
            aliases: self.aliases.deep_view(),
            versions: self.versions.deep_view(),
        }
    }
}

impl DeepView for SupportedApi {
    type V = SupportedApiView;

    open spec fn deep_view(&self) -> SupportedApiView {
        self@
    }
}

impl Clone for SupportedApi {
    fn clone(&self) -> (r: Self)
        ensures
            r@ == self@,
    {
        SupportedApi {
            name: self.name.clone(),
            title: self.title.clone(),
            category: self.category.clone(),
            aliases: copy_strings(&self.aliases),
            versions: copy_strings(&self.versions),
        }
    }
}

/// A service without aliases and versions.
pub open spec fn service(name: Seq<char>, title: Seq<char>, category: Seq<char>)
    -> SupportedApiView {
    SupportedApiView { name, title, category, aliases: Seq::empty(), versions: Seq::empty() }
}

impl SupportedApiView {
    /// The service with one more alias.
    pub open spec fn alias(self, alias: Seq<char>) -> SupportedApiView {
        SupportedApiView {
            name: self.name,
            title: self.title,
            category: self.category,
            aliases: self.aliases.push(alias),
            versions: self.versions,
        }
    }

    /// The service with one more version.
    pub open spec fn version(self, version: Seq<char>) -> SupportedApiView {
        SupportedApiView {
            name: self.name,
            title: self.title,
            category: self.category,
            aliases: self.aliases,
            versions: self.versions.push(version),
        }
    }
}

impl SupportedApi {
    /// A service without aliases and versions.
    pub fn new(name: &str, title: &str, category: &str) -> (r: Self)
        ensures
            r@ == service(name@, title@, category@),
    {
        let r = SupportedApi {
            name: name.to_owned(),
            title: title.to_owned(),
            category: category.to_owned(),
            aliases: Vec::new(),
            versions: Vec::new(),
        };
        assert(r.aliases.deep_view() =~= Seq::<Seq<char>>::empty());
        assert(r.versions.deep_view() =~= Seq::<Seq<char>>::empty());
        r
    }

    /// The service with one more alias.
    pub fn alias(self, alias: &str) -> (r: Self)
        ensures
            r@ == self@.alias(alias@),
    {
        let ghost had = self.aliases.deep_view();
        let mut r = self;
        r.aliases.push(alias.to_owned());
        assert(r.aliases.deep_view() =~= had.push(alias@));
        r
    }

    /// The service with one more version.
    pub fn version(self, version: &str) -> (r: Self)
        ensures
            r@ == self@.version(version@),
    {
        let ghost had = self.versions.deep_view();
        let mut r = self;
        r.versions.push(version.to_owned());
        assert(r.versions.deep_view() =~= had.push(version@));
        r
    }

    /// The version that is meant when none is given: the first.
    pub fn default_version(&self) -> (r: &str)
        requires
            self@.versions.len() > 0,
        ensures
            r@ == self@.versions[0],
    {
        assert(self.versions.deep_view()[0] == self.versions@[0]@);
        self.versions[0].as_str()
    }
}

/// Every service of the list has a version.
pub open spec fn well_formed(apis: Seq<SupportedApiView>) -> bool {
    forall|i: int| 0 <= i < apis.len() ==> (#[trigger] apis[i]).versions.len() > 0
}

/// The primary services whose names begin with the letter `a`.
pub open spec fn primary_a_catalog() -> Seq<SupportedApiView> {
    seq![
        service("accessapproval"@, "Access Approval"@, "Identity & Access"@).alias("access-approval"@).version("v1"@),
        service("accesscontextmanager"@, "Access Context Manager"@, "Identity & Access"@).alias("acm"@).version("v1"@),
        service("aiplatform"@, "Vertex AI"@, "AI/ML"@).alias("vertex"@).alias("ai"@).version("v1beta1"@).version("v1"@),
        service("alloydb"@, "AlloyDB"@, "Databases"@).alias("alloy"@).version("v1beta"@).version("v1"@),
        service("apigateway"@, "API Gateway"@, "Serverless"@).alias("api-gateway"@).version("v1beta"@).version("v1"@),
        service("apigee"@, "Apigee"@, "Integration"@).version("v1"@),
        service("appengine"@, "App Engine Admin"@, "Serverless"@).alias("app"@).version("v1"@).version("v1beta"@),
        service("artifactregistry"@, "Artifact Registry"@, "Developer"@).alias("artifacts"@).version("v1"@),
        service("assuredworkloads"@, "Assured Workloads"@, "Security"@).alias("assured-workloads"@).version("v1"@).version("v1beta1"@),
    ]
}

fn primary_a() -> (v: Vec<SupportedApi>)
    ensures
        v.deep_view() == primary_a_catalog(),
        well_formed(v.deep_view()),
{
    let mut v: Vec<SupportedApi> = Vec::new();
    v.push(SupportedApi::new("accessapproval", "Access Approval", "Identity & Access").alias("access-approval").version("v1"));
    v.push(SupportedApi::new("accesscontextmanager", "Access Context Manager", "Identity & Access").alias("acm").version("v1"));
    v.push(SupportedApi::new("aiplatform", "Vertex AI", "AI/ML").alias("vertex").alias("ai").version("v1beta1").version("v1"));
    v.push(SupportedApi::new("alloydb", "AlloyDB", "Databases").alias("alloy").version("v1beta").version("v1"));
    v.push(SupportedApi::new("apigateway", "API Gateway", "Serverless").alias("api-gateway").version("v1beta").version("v1"));
    v.push(SupportedApi::new("apigee", "Apigee", "Integration").version("v1"));
    v.push(SupportedApi::new("appengine", "App Engine Admin", "Serverless").alias("app").version("v1").version("v1beta"));
    v.push(SupportedApi::new("artifactregistry", "Artifact Registry", "Developer").alias("artifacts").version("v1"));
    v.push(SupportedApi::new("assuredworkloads", "Assured Workloads", "Security").alias("assured-workloads").version("v1").version("v1beta1"));
    assert(v.deep_view() =~= primary_a_catalog());
    v
}

/// The primary services whose names begin with the letter `b`.
pub open spec fn primary_b_catalog() -> Seq<SupportedApiView> {
    seq![
        service("backupdr"@, "Google Cloud Backup and DR"@, "Operations"@).alias("backup-dr"@).version("v1"@),
        service("baremetalsolution"@, "Bare Metal Solution"@, "Compute"@).alias("bms"@).version("v2"@),
        service("batch"@, "Batch"@, "Compute"@).version("v1"@),
        service("bigquery"@, "BigQuery"@, "Analytics"@).alias("bq"@).version("v2"@),
        service("bigtableadmin"@, "Cloud Bigtable Admin"@, "Databases"@).alias("bigtable"@).version("v2"@),
        service("binaryauthorization"@, "Binary Authorization"@, "Security"@).alias("binary-auth"@).version("v1"@).version("v1beta1"@),
        service("blockchainnodeengine"@, "Blockchain Node Engine"@, "Compute"@).alias("bne"@).alias("blockchain"@).version("v1"@),
    ]
}

fn primary_b() -> (v: Vec<SupportedApi>)
    ensures
        v.deep_view() == primary_b_catalog(),
        well_formed(v.deep_view()),
{
    let mut v: Vec<SupportedApi> = Vec::new();
    v.push(SupportedApi::new("backupdr", "Google Cloud Backup and DR", "Operations").alias("backup-dr").version("v1"));
    v.push(SupportedApi::new("baremetalsolution", "Bare Metal Solution", "Compute").alias("bms").version("v2"));
    v.push(SupportedApi::new("batch", "Batch", "Compute").version("v1"));
    v.push(SupportedApi::new("bigquery", "BigQuery", "Analytics").alias("bq").version("v2"));
    v.push(SupportedApi::new("bigtableadmin", "Cloud Bigtable Admin", "Databases").alias("bigtable").version("v2"));
    v.push(SupportedApi::new("binaryauthorization", "Binary Authorization", "Security").alias("binary-auth").version("v1").version("v1beta1"));
    v.push(SupportedApi::new("blockchainnodeengine", "Blockchain Node Engine", "Compute").alias("bne").alias("blockchain").version("v1"));
    assert(v.deep_view() =~= primary_b_catalog());
    v
}

/// The primary services whose names begin with the letter `c`.
pub open spec fn primary_c_catalog() -> Seq<SupportedApiView> {
    seq![
        service("certificatemanager"@, "Certificate Manager"@, "Security"@).alias("certificate-manager"@).alias("cert"@).version("v1"@),
        service("cloudasset"@, "Cloud Asset"@, "Management"@).alias("asset"@).version("v1"@).version("v1p1beta1"@).version("v1p7beta1"@),
        service("cloudbuild"@, "Cloud Build"@, "Developer"@).alias("build"@).version("v1"@).version("v2"@),
        service("clouddeploy"@, "Cloud Deploy"@, "Developer"@).alias("deploy"@).version("v1"@),
        service("cloudfunctions"@, "Cloud Run functions"@, "Serverless"@).alias("functions"@).alias("func"@).version("v2"@).version("v2beta"@).version("v2alpha"@).version("v1"@),
        service("cloudidentity"@, "Cloud Identity"@, "Identity & Access"@).alias("identity"@).version("v1"@).version("v1beta1"@),
        service("cloudkms"@, "Cloud Key Management Service"@, "Security"@).alias("kms"@).version("v1"@),
        service("cloudprofiler"@, "Cloud Profiler"@, "Operations"@).alias("profiler"@).version("v2"@),
        service("cloudresourcemanager"@, "Cloud Resource Manager"@, "Management"@).alias("resource-manager"@).alias("resource"@).version("v3"@).version("v2"@).version("v2beta1"@).version("v1"@).version("v1beta1"@),
        service("cloudscheduler"@, "Cloud Scheduler"@, "Integration"@).alias("scheduler"@).version("v1"@).version("v1beta1"@),
        service("cloudshell"@, "Cloud Shell"@, "Management"@).alias("shell"@).version("v1"@),
        service("cloudtasks"@, "Cloud Tasks"@, "Integration"@).alias("tasks"@).version("v2"@).version("v2beta3"@),
        service("cloudtrace"@, "Cloud Trace"@, "Operations"@).alias("trace"@).version("v2"@).version("v2beta1"@).version("v1"@),
        service("composer"@, "Cloud Composer"@, "Analytics"@).version("v1beta1"@).version("v1"@),
        service("compute"@, "Compute Engine"@, "Compute"@).alias("gce"@).version("v1"@).version("beta"@),
        service("contactcenteraiplatform"@, "Conversational AI"@, "AI/ML"@).alias("conv-ai"@).alias("ccai"@).version("v1alpha1"@),
        service("container"@, "Google Kubernetes Engine"@, "Compute"@).alias("gke"@).version("v1"@).version("v1beta1"@),
    ]
}

fn primary_c() -> (v: Vec<SupportedApi>)
    ensures
        v.deep_view() == primary_c_catalog(),
        well_formed(v.deep_view()),
{
    let mut v: Vec<SupportedApi> = Vec::new();
    v.push(SupportedApi::new("certificatemanager", "Certificate Manager", "Security").alias("certificate-manager").alias("cert").version("v1"));
    v.push(SupportedApi::new("cloudasset", "Cloud Asset", "Management").alias("asset").version("v1").version("v1p1beta1").version("v1p7beta1"));
    v.push(SupportedApi::new("cloudbuild", "Cloud Build", "Developer").alias("build").version("v1").version("v2"));
    v.push(SupportedApi::new("clouddeploy", "Cloud Deploy", "Developer").alias("deploy").version("v1"));
    v.push(SupportedApi::new("cloudfunctions", "Cloud Run functions", "Serverless").alias("functions").alias("func").version("v2").version("v2beta").version("v2alpha").version("v1"));
    v.push(SupportedApi::new("cloudidentity", "Cloud Identity", "Identity & Access").alias("identity").version("v1").version("v1beta1"));
    v.push(SupportedApi::new("cloudkms", "Cloud Key Management Service", "Security").alias("kms").version("v1"));
    v.push(SupportedApi::new("cloudprofiler", "Cloud Profiler", "Operations").alias("profiler").version("v2"));
    v.push(SupportedApi::new("cloudresourcemanager", "Cloud Resource Manager", "Management").alias("resource-manager").alias("resource").version("v3").version("v2").version("v2beta1").version("v1").version("v1beta1"));
    v.push(SupportedApi::new("cloudscheduler", "Cloud Scheduler", "Integration").alias("scheduler").version("v1").version("v1beta1"));
    v.push(SupportedApi::new("cloudshell", "Cloud Shell", "Management").alias("shell").version("v1"));
    v.push(SupportedApi::new("cloudtasks", "Cloud Tasks", "Integration").alias("tasks").version("v2").version("v2beta3"));
    v.push(SupportedApi::new("cloudtrace", "Cloud Trace", "Operations").alias("trace").version("v2").version("v2beta1").version("v1"));
    v.push(SupportedApi::new("composer", "Cloud Composer", "Analytics").version("v1beta1").version("v1"));
    v.push(SupportedApi::new("compute", "Compute Engine", "Compute").alias("gce").version("v1").version("beta"));
    v.push(SupportedApi::new("contactcenteraiplatform", "Conversational AI", "AI/ML").alias("conv-ai").alias("ccai").version("v1alpha1"));
    v.push(SupportedApi::new("container", "Google Kubernetes Engine", "Compute").alias("gke").version("v1").version("v1beta1"));
    assert(v.deep_view() =~= primary_c_catalog());
    v
}

/// The primary services whose names begin with the letter `d`.
pub open spec fn primary_d_catalog() -> Seq<SupportedApiView> {
    seq![
        service("datacatalog"@, "Google Cloud Data Catalog"@, "Analytics"@).alias("data-catalog"@).version("v1"@).version("v1beta1"@),
        service("dataflow"@, "Dataflow"@, "Analytics"@).version("v1b3"@),
        service("dataform"@, "Dataform"@, "Analytics"@).version("v1beta1"@),
        service("datafusion"@, "Cloud Data Fusion"@, "Analytics"@).alias("data-fusion"@).version("v1beta1"@).version("v1"@),
        service("datamigration"@, "Database Migration Service"@, "Migration"@).alias("dms"@).version("v1"@).version("v1beta1"@),
        service("dataplex"@, "Cloud Dataplex"@, "Analytics"@).version("v1"@),
        service("dataproc"@, "Cloud Dataproc"@, "Analytics"@).version("v1"@),
        service("datastore"@, "Cloud Datastore"@, "Databases"@).version("v1"@),
        service("datastream"@, "Datastream"@, "Analytics"@).version("v1"@),
        service("deploymentmanager"@, "Cloud Deployment Manager"@, "Management"@).alias("deployment-manager"@).version("v2"@).version("v2beta"@),
        service("developerconnect"@, "Developer Connect"@, "Developer"@).alias("developer-connect"@).version("v1"@),
        service("dlp"@, "Cloud Data Loss Prevention"@, "Security"@).version("v2"@),
        service("dns"@, "Cloud DNS"@, "Networking"@).version("v1"@).version("v1beta2"@),
        service("documentai"@, "Cloud Document AI"@, "AI/ML"@).alias("doc-ai"@).version("v1"@).version("v1beta3"@),
    ]
}

fn primary_d() -> (v: Vec<SupportedApi>)
    ensures
        v.deep_view() == primary_d_catalog(),
        well_formed(v.deep_view()),
{
    let mut v: Vec<SupportedApi> = Vec::new();
    v.push(SupportedApi::new("datacatalog", "Google Cloud Data Catalog", "Analytics").alias("data-catalog").version("v1").version("v1beta1"));
    v.push(SupportedApi::new("dataflow", "Dataflow", "Analytics").version("v1b3"));
    v.push(SupportedApi::new("dataform", "Dataform", "Analytics").version("v1beta1"));
    v.push(SupportedApi::new("datafusion", "Cloud Data Fusion", "Analytics").alias("data-fusion").version("v1beta1").version("v1"));
    v.push(SupportedApi::new("datamigration", "Database Migration Service", "Migration").alias("dms").version("v1").version("v1beta1"));
    v.push(SupportedApi::new("dataplex", "Cloud Dataplex", "Analytics").version("v1"));
    v.push(SupportedApi::new("dataproc", "Cloud Dataproc", "Analytics").version("v1"));
    v.push(SupportedApi::new("datastore", "Cloud Datastore", "Databases").version("v1"));
    v.push(SupportedApi::new("datastream", "Datastream", "Analytics").version("v1"));
    v.push(SupportedApi::new("deploymentmanager", "Cloud Deployment Manager", "Management").alias("deployment-manager").version("v2").version("v2beta"));
    v.push(SupportedApi::new("developerconnect", "Developer Connect", "Developer").alias("developer-connect").version("v1"));
    v.push(SupportedApi::new("dlp", "Cloud Data Loss Prevention", "Security").version("v2"));
    v.push(SupportedApi::new("dns", "Cloud DNS", "Networking").version("v1").version("v1beta2"));
    v.push(SupportedApi::new("documentai", "Cloud Document AI", "AI/ML").alias("doc-ai").version("v1").version("v1beta3"));
    assert(v.deep_view() =~= primary_d_catalog());
    v
}

/// The primary services whose names begin with the letters `e` to `l`.
pub open spec fn primary_e_to_l_catalog() -> Seq<SupportedApiView> {
    seq![
        service("eventarc"@, "Eventarc"@, "Serverless"@).version("v1"@),
        service("file"@, "Cloud Filestore"@, "Storage"@).version("v1"@).version("v1beta1"@),
        service("firestore"@, "Cloud Firestore"@, "Databases"@).version("v1"@).version("v1beta1"@).version("v1beta2"@),
        service("healthcare"@, "Cloud Healthcare"@, "Analytics"@).version("v1"@).version("v1beta1"@),
        service("iam"@, "Identity and Access Management"@, "Identity & Access"@).version("v1"@).version("v2"@),
        service("iap"@, "Cloud Identity-Aware Proxy"@, "Identity & Access"@).version("v1"@).version("v1beta1"@),
        service("ids"@, "Cloud Intrusion Detection System"@, "Security"@).version("v1"@),
        service("language"@, "Cloud Natural Language"@, "AI/ML"@).version("v2"@).version("v1"@).version("v1beta2"@),
        service("lifesciences"@, "Cloud Life Sciences"@, "Analytics"@).version("v2beta"@),
        service("logging"@, "Cloud Logging"@, "Operations"@).alias("log"@).version("v2"@),
        service("looker"@, "Looker (Google Cloud core)"@, "Analytics"@).version("v1"@),
    ]
}

fn primary_e_to_l() -> (v: Vec<SupportedApi>)
    ensures
        v.deep_view() == primary_e_to_l_catalog(),
        well_formed(v.deep_view()),
{
    let mut v: Vec<SupportedApi> = Vec::new();
    v.push(SupportedApi::new("eventarc", "Eventarc", "Serverless").version("v1"));
    v.push(SupportedApi::new("file", "Cloud Filestore", "Storage").version("v1").version("v1beta1"));
    v.push(SupportedApi::new("firestore", "Cloud Firestore", "Databases").version("v1").version("v1beta1").version("v1beta2"));
    v.push(SupportedApi::new("healthcare", "Cloud Healthcare", "Analytics").version("v1").version("v1beta1"));
    v.push(SupportedApi::new("iam", "Identity and Access Management", "Identity & Access").version("v1").version("v2"));
    v.push(SupportedApi::new("iap", "Cloud Identity-Aware Proxy", "Identity & Access").version("v1").version("v1beta1"));
    v.push(SupportedApi::new("ids", "Cloud Intrusion Detection System", "Security").version("v1"));
    v.push(SupportedApi::new("language", "Cloud Natural Language", "AI/ML").version("v2").version("v1").version("v1beta2"));
    v.push(SupportedApi::new("lifesciences", "Cloud Life Sciences", "Analytics").version("v2beta"));
    v.push(SupportedApi::new("logging", "Cloud Logging", "Operations").alias("log").version("v2"));
    v.push(SupportedApi::new("looker", "Looker (Google Cloud core)", "Analytics").version("v1"));
    assert(v.deep_view() =~= primary_e_to_l_catalog());
    v
}

/// The primary services whose names begin with the letters `m` to `r`.
pub open spec fn primary_m_to_r_catalog() -> Seq<SupportedApiView> {
    seq![
        service("managedidentities"@, "Managed Service for Microsoft Active Directory"@, "Identity & Access"@).alias("managed-ad"@).version("v1"@).version("v1beta1"@),
        service("migrationcenter"@, "Migration Center"@, "Migration"@).alias("migration-center"@).version("v1"@).version("v1alpha1"@),
        service("monitoring"@, "Cloud Monitoring"@, "Operations"@).alias("mon"@).version("v3"@).version("v1"@),
        service("networkconnectivity"@, "Network Connectivity Center"@, "Networking"@).alias("ncc"@).version("v1"@).version("v1alpha1"@),
        service("networkmanagement"@, "Network Intelligence Center"@, "Networking"@).alias("network-management"@).version("v1"@).version("v1beta1"@),
        service("orgpolicy"@, "Organization Policy"@, "Management"@).version("v2"@),
        service("privateca"@, "Certificate Authority Service"@, "Security"@).alias("cas"@).alias("private-ca"@).version("v1"@),
        service("pubsub"@, "Cloud Pub/Sub"@, "Analytics"@).version("v1"@),
        service("recaptchaenterprise"@, "Google Cloud reCAPTCHA Enterprise"@, "Security"@).alias("recaptcha"@).version("v1"@),
        service("recommender"@, "Recommender"@, "Management"@).version("v1"@).version("v1beta1"@),
        service("redis"@, "Memorystore for Redis"@, "Databases"@).version("v1"@).version("v1beta1"@),
        service("run"@, "Cloud Run Admin"@, "Serverless"@).alias("cloudrun"@).version("v2"@).version("v1"@),
    ]
}

fn primary_m_to_r() -> (v: Vec<SupportedApi>)
    ensures
        v.deep_view() == primary_m_to_r_catalog(),
        well_formed(v.deep_view()),
{
    let mut v: Vec<SupportedApi> = Vec::new();
    v.push(SupportedApi::new("managedidentities", "Managed Service for Microsoft Active Directory", "Identity & Access").alias("managed-ad").version("v1").version("v1beta1"));
    v.push(SupportedApi::new("migrationcenter", "Migration Center", "Migration").alias("migration-center").version("v1").version("v1alpha1"));
    v.push(SupportedApi::new("monitoring", "Cloud Monitoring", "Operations").alias("mon").version("v3").version("v1"));
    v.push(SupportedApi::new("networkconnectivity", "Network Connectivity Center", "Networking").alias("ncc").version("v1").version("v1alpha1"));
    v.push(SupportedApi::new("networkmanagement", "Network Intelligence Center", "Networking").alias("network-management").version("v1").version("v1beta1"));
    v.push(SupportedApi::new("orgpolicy", "Organization Policy", "Management").version("v2"));
    v.push(SupportedApi::new("privateca", "Certificate Authority Service", "Security").alias("cas").alias("private-ca").version("v1"));
    v.push(SupportedApi::new("pubsub", "Cloud Pub/Sub", "Analytics").version("v1"));
    v.push(SupportedApi::new("recaptchaenterprise", "Google Cloud reCAPTCHA Enterprise", "Security").alias("recaptcha").version("v1"));
    v.push(SupportedApi::new("recommender", "Recommender", "Management").version("v1").version("v1beta1"));
    v.push(SupportedApi::new("redis", "Memorystore for Redis", "Databases").version("v1").version("v1beta1"));
    v.push(SupportedApi::new("run", "Cloud Run Admin", "Serverless").alias("cloudrun").version("v2").version("v1"));
    assert(v.deep_view() =~= primary_m_to_r_catalog());
    v
}

/// The primary services whose names begin with the letters `s` to `t`.
pub open spec fn primary_s_to_t_catalog() -> Seq<SupportedApiView> {
    seq![
        service("secretmanager"@, "Secret Manager"@, "Security"@).alias("secret"@).version("v1"@).version("v1beta1"@),
        service("securitycenter"@, "Security Command Center"@, "Security"@).alias("scc"@).version("v1"@).version("v1beta2"@).version("v1beta1"@),
        service("servicedirectory"@, "Service Directory"@, "Networking"@).alias("service-directory"@).version("v1"@).version("v1beta1"@),
        service("serviceusage"@, "Service Usage"@, "Management"@).alias("service"@).alias("svc"@).version("v1beta1"@).version("v1"@),
        service("spanner"@, "Cloud Spanner"@, "Databases"@).alias("span"@).version("v1"@),
        service("sqladmin"@, "Cloud SQL Admin"@, "Databases"@).alias("sql"@).version("v1beta4"@).version("v1"@),
        service("storage"@, "Cloud Storage"@, "Storage"@).alias("gs"@).alias("gcs"@).version("v1"@),
        service("storagetransfer"@, "Storage Transfer Service"@, "Migration"@).alias("storage-transfer"@).version("v1"@),
        service("trafficdirector"@, "Traffic Director (Cloud Service Mesh)"@, "Networking"@).alias("traffic-director"@).version("v2"@).version("v3"@),
        service("transcoder"@, "Transcoder"@, "Compute"@).version("v1"@),
        service("translate"@, "Cloud Translation"@, "AI/ML"@).version("v3"@).version("v3beta1"@),
    ]
}

fn primary_s_to_t() -> (v: Vec<SupportedApi>)
    ensures
        v.deep_view() == primary_s_to_t_catalog(),
        well_formed(v.deep_view()),
{
    let mut v: Vec<SupportedApi> = Vec::new();
    v.push(SupportedApi::new("secretmanager", "Secret Manager", "Security").alias("secret").version("v1").version("v1beta1"));
    v.push(SupportedApi::new("securitycenter", "Security Command Center", "Security").alias("scc").version("v1").version("v1beta2").version("v1beta1"));
    v.push(SupportedApi::new("servicedirectory", "Service Directory", "Networking").alias("service-directory").version("v1").version("v1beta1"));
    v.push(SupportedApi::new("serviceusage", "Service Usage", "Management").alias("service").alias("svc").version("v1beta1").version("v1"));
    v.push(SupportedApi::new("spanner", "Cloud Spanner", "Databases").alias("span").version("v1"));
    v.push(SupportedApi::new("sqladmin", "Cloud SQL Admin", "Databases").alias("sql").version("v1beta4").version("v1"));
    v.push(SupportedApi::new("storage", "Cloud Storage", "Storage").alias("gs").alias("gcs").version("v1"));
    v.push(SupportedApi::new("storagetransfer", "Storage Transfer Service", "Migration").alias("storage-transfer").version("v1"));
    v.push(SupportedApi::new("trafficdirector", "Traffic Director (Cloud Service Mesh)", "Networking").alias("traffic-director").version("v2").version("v3"));
    v.push(SupportedApi::new("transcoder", "Transcoder", "Compute").version("v1"));
    v.push(SupportedApi::new("translate", "Cloud Translation", "AI/ML").version("v3").version("v3beta1"));
    assert(v.deep_view() =~= primary_s_to_t_catalog());
    v
}

/// The primary services whose names begin with the letters `v` to `w`.
pub open spec fn primary_v_to_w_catalog() -> Seq<SupportedApiView> {
    seq![
        service("videointelligence"@, "Cloud Video Intelligence"@, "AI/ML"@).alias("video-intelligence"@).version("v1"@).version("v1p3beta1"@),
        service("vision"@, "Cloud Vision"@, "AI/ML"@).version("v1"@),
        service("vmmigration"@, "Migrate to Virtual Machines (VM Migration)"@, "Migration"@).alias("vm-migration"@).version("v1"@),
        service("vmwareengine"@, "Google Cloud VMware Engine (GCVE)"@, "Compute"@).alias("gcve"@).version("v1"@),
        service("webrisk"@, "Web Risk"@, "Security"@).version("v1"@),
        service("websecurityscanner"@, "Web Security Scanner"@, "Security"@).alias("web-security-scanner"@).version("v1"@).version("v1beta"@),
        service("workflows"@, "Workflows"@, "Serverless"@).version("v1"@).version("v1beta"@),
        service("workloadmanager"@, "Workload Manager"@, "Compute"@).alias("wlm"@).version("v1"@),
        service("workstations"@, "Cloud Workstations"@, "Developer"@).version("v1"@).version("v1beta"@),
    ]
}

fn primary_v_to_w() -> (v: Vec<SupportedApi>)
    ensures
        v.deep_view() == primary_v_to_w_catalog(),
        well_formed(v.deep_view()),
{
    let mut v: Vec<SupportedApi> = Vec::new();
    v.push(SupportedApi::new("videointelligence", "Cloud Video Intelligence", "AI/ML").alias("video-intelligence").version("v1").version("v1p3beta1"));
    v.push(SupportedApi::new("vision", "Cloud Vision", "AI/ML").version("v1"));
    v.push(SupportedApi::new("vmmigration", "Migrate to Virtual Machines (VM Migration)", "Migration").alias("vm-migration").version("v1"));
    v.push(SupportedApi::new("vmwareengine", "Google Cloud VMware Engine (GCVE)", "Compute").alias("gcve").version("v1"));
    v.push(SupportedApi::new("webrisk", "Web Risk", "Security").version("v1"));
    v.push(SupportedApi::new("websecurityscanner", "Web Security Scanner", "Security").alias("web-security-scanner").version("v1").version("v1beta"));
    v.push(SupportedApi::new("workflows", "Workflows", "Serverless").version("v1").version("v1beta"));
    v.push(SupportedApi::new("workloadmanager", "Workload Manager", "Compute").alias("wlm").version("v1"));
    v.push(SupportedApi::new("workstations", "Cloud Workstations", "Developer").version("v1").version("v1beta"));
    assert(v.deep_view() =~= primary_v_to_w_catalog());
    v
}

/// The secondary services whose names begin with the letter `a`.
pub open spec fn secondary_a_catalog() -> Seq<SupportedApiView> {
    seq![
        service("advisorynotifications"@, "Advisory Notifications"@, "Security"@).alias("advisory-notifications"@).version("v1"@),
        service("analyticshub"@, "BigQuery Analytics Hub"@, "Analytics"@).alias("analytics-hub"@).version("v1"@).version("v1beta1"@),
        service("apigeeregistry"@, "Apigee Registry"@, "Integration"@).alias("apigee-registry"@).version("v1"@),
        service("apikeys"@, "API Keys"@, "Management"@).version("v2"@),
        service("apim"@, "Apigee API Management (Observation)"@, "Integration"@).version("v1alpha"@),
        service("apphub"@, "App Hub"@, "Operations"@).version("v1"@).version("v1alpha"@),
    ]
}

fn secondary_a() -> (v: Vec<SupportedApi>)
    ensures
        v.deep_view() == secondary_a_catalog(),
        well_formed(v.deep_view()),
{
    let mut v: Vec<SupportedApi> = Vec::new();
    v.push(SupportedApi::new("advisorynotifications", "Advisory Notifications", "Security").alias("advisory-notifications").version("v1"));
    v.push(SupportedApi::new("analyticshub", "BigQuery Analytics Hub", "Analytics").alias("analytics-hub").version("v1").version("v1beta1"));
    v.push(SupportedApi::new("apigeeregistry", "Apigee Registry", "Integration").alias("apigee-registry").version("v1"));
    v.push(SupportedApi::new("apikeys", "API Keys", "Management").version("v2"));
    v.push(SupportedApi::new("apim", "Apigee API Management (Observation)", "Integration").version("v1alpha"));
    v.push(SupportedApi::new("apphub", "App Hub", "Operations").version("v1").version("v1alpha"));
    assert(v.deep_view() =~= secondary_a_catalog());
    v
}

/// The secondary services whose names begin with the letter `b`.
pub open spec fn secondary_b_catalog() -> Seq<SupportedApiView> {
    seq![
        service("beyondcorp"@, "Beyondcorp (Chrome Enterprise Premium)"@, "Security"@).version("v1"@),
        service("biglake"@, "BigLake"@, "Analytics"@).version("v1"@),
        service("bigqueryconnection"@, "BigQuery Connection"@, "Analytics"@).alias("bq-connection"@).version("v1"@).version("v1beta1"@),
        service("bigquerydatapolicy"@, "BigQuery Data Policy"@, "Analytics"@).alias("bq-policy"@).version("v1"@),
        service("bigquerydatatransfer"@, "BigQuery Data Transfer Service"@, "Migration"@).alias("bq-dts"@).version("v1"@),
        service("bigqueryreservation"@, "BigQuery Reservation"@, "Analytics"@).alias("bq-reservation"@).version("v1"@),
        service("billingbudgets"@, "Cloud Billing Budget"@, "Management"@).alias("billing-budgets"@).version("v1"@).version("v1beta1"@),
    ]
}

fn secondary_b() -> (v: Vec<SupportedApi>)
    ensures
        v.deep_view() == secondary_b_catalog(),
        well_formed(v.deep_view()),
{
    let mut v: Vec<SupportedApi> = Vec::new();
    v.push(SupportedApi::new("beyondcorp", "Beyondcorp (Chrome Enterprise Premium)", "Security").version("v1"));
    v.push(SupportedApi::new("biglake", "BigLake", "Analytics").version("v1"));
    v.push(SupportedApi::new("bigqueryconnection", "BigQuery Connection", "Analytics").alias("bq-connection").version("v1").version("v1beta1"));
    v.push(SupportedApi::new("bigquerydatapolicy", "BigQuery Data Policy", "Analytics").alias("bq-policy").version("v1"));
    v.push(SupportedApi::new("bigquerydatatransfer", "BigQuery Data Transfer Service", "Migration").alias("bq-dts").version("v1"));
    v.push(SupportedApi::new("bigqueryreservation", "BigQuery Reservation", "Analytics").alias("bq-reservation").version("v1"));
    v.push(SupportedApi::new("billingbudgets", "Cloud Billing Budget", "Management").alias("billing-budgets").version("v1").version("v1beta1"));
    assert(v.deep_view() =~= secondary_b_catalog());
    v
}

/// The secondary services whose names begin with the letter `c`.
pub open spec fn secondary_c_catalog() -> Seq<SupportedApiView> {
    seq![
        service("cloudbilling"@, "Cloud Billing"@, "Management"@).alias("billing"@).version("v1beta"@).version("v1"@),
        service("cloudchannel"@, "Cloud Channel"@, "Management"@).version("v1"@),
        service("cloudcontrolspartner"@, "Cloud Controls Partner"@, "Management"@).version("v1"@).version("v1beta"@),
        service("clouderrorreporting"@, "Error Reporting"@, "Operations"@).alias("error-reporting"@).version("v1beta1"@),
        service("cloudsupport"@, "Google Cloud Support"@, "Management"@).alias("support"@).version("v2"@).version("v2beta"@),
        service("config"@, "Infrastructure Manager"@, "Management"@).alias("infra-manager"@).version("v1"@),
        service("connectors"@, "Integration Connectors"@, "Integration"@).version("v1"@),
        service("contactcenterinsights"@, "Conversational Insights"@, "AI/ML"@).alias("conv-insights"@).alias("ccai-insights"@).version("v1"@),
        service("containeranalysis"@, "Container Analysis"@, "Security"@).alias("container-analysis"@).alias("artifact-analysis"@).version("v1"@).version("v1beta1"@),
        service("contentwarehouse"@, "Document AI Warehouse"@, "AI/ML"@).alias("doc-ai-warehouse"@).version("v1"@),
    ]
}

fn secondary_c() -> (v: Vec<SupportedApi>)
    ensures
        v.deep_view() == secondary_c_catalog(),
        well_formed(v.deep_view()),
{
    let mut v: Vec<SupportedApi> = Vec::new();
    v.push(SupportedApi::new("cloudbilling", "Cloud Billing", "Management").alias("billing").version("v1beta").version("v1"));
    v.push(SupportedApi::new("cloudchannel", "Cloud Channel", "Management").version("v1"));
    v.push(SupportedApi::new("cloudcontrolspartner", "Cloud Controls Partner", "Management").version("v1").version("v1beta"));
    v.push(SupportedApi::new("clouderrorreporting", "Error Reporting", "Operations").alias("error-reporting").version("v1beta1"));
    v.push(SupportedApi::new("cloudsupport", "Google Cloud Support", "Management").alias("support").version("v2").version("v2beta"));
    v.push(SupportedApi::new("config", "Infrastructure Manager", "Management").alias("infra-manager").version("v1"));
    v.push(SupportedApi::new("connectors", "Integration Connectors", "Integration").version("v1"));
    v.push(SupportedApi::new("contactcenterinsights", "Conversational Insights", "AI/ML").alias("conv-insights").alias("ccai-insights").version("v1"));
    v.push(SupportedApi::new("containeranalysis", "Container Analysis", "Security").alias("container-analysis").alias("artifact-analysis").version("v1").version("v1beta1"));
    v.push(SupportedApi::new("contentwarehouse", "Document AI Warehouse", "AI/ML").alias("doc-ai-warehouse").version("v1"));
    assert(v.deep_view() =~= secondary_c_catalog());
    v
}

/// The secondary services whose names begin with the letters `d` to `i`.
pub open spec fn secondary_d_to_i_catalog() -> Seq<SupportedApiView> {
    seq![
        service("datalineage"@, "Data Lineage"@, "Analytics"@).alias("data-lineage"@).version("v1"@),
        service("datapipelines"@, "Data pipelines"@, "Analytics"@).alias("data-pipelines"@).version("v1"@),
        service("dialogflow"@, "Dialogflow"@, "AI/ML"@).version("v3"@).version("v3beta1"@).version("v2"@).version("v2beta1"@),
        service("discoveryengine"@, "Vertex AI Agent Builder"@, "AI/ML"@).alias("discovery-engine"@).alias("agent-builder"@).version("v1"@).version("v1beta"@).version("v1alpha"@),
        service("domains"@, "Cloud Domains"@, "Networking"@).version("v1"@).version("v1beta1"@),
        service("essentialcontacts"@, "Essential Contacts"@, "Management"@).alias("essential-contacts"@).version("v1"@),
        service("gkebackup"@, "Backup for GKE"@, "Storage"@).alias("gke-backup"@).version("v1"@),
        service("gkehub"@, "GKE Hub (Fleet)"@, "Compute"@).alias("gke-hub"@).alias("fleet"@).version("v2"@).version("v1beta1"@).version("v2beta"@).version("v2alpha"@).version("v1"@).version("v1beta"@).version("v1alpha"@),
        service("gkeonprem"@, "Google Distributed Cloud (GDC) Virtual"@, "Compute"@).alias("gke-onprem"@).version("v1"@),
        service("iamcredentials"@, "IAM Service Account Credentials"@, "Identity & Access"@).alias("iam-credentials"@).version("v1"@),
        service("identitytoolkit"@, "Identity Toolkit"@, "Identity & Access"@).alias("identity-toolkit"@).version("v2"@).version("v1"@),
        service("integrations"@, "Application Integration"@, "Integration"@).version("v1"@),
    ]
}

fn secondary_d_to_i() -> (v: Vec<SupportedApi>)
    ensures
        v.deep_view() == secondary_d_to_i_catalog(),
        well_formed(v.deep_view()),
{
    let mut v: Vec<SupportedApi> = Vec::new();
    v.push(SupportedApi::new("datalineage", "Data Lineage", "Analytics").alias("data-lineage").version("v1"));
    v.push(SupportedApi::new("datapipelines", "Data pipelines", "Analytics").alias("data-pipelines").version("v1"));
    v.push(SupportedApi::new("dialogflow", "Dialogflow", "AI/ML").version("v3").version("v3beta1").version("v2").version("v2beta1"));
    v.push(SupportedApi::new("discoveryengine", "Vertex AI Agent Builder", "AI/ML").alias("discovery-engine").alias("agent-builder").version("v1").version("v1beta").version("v1alpha"));
    v.push(SupportedApi::new("domains", "Cloud Domains", "Networking").version("v1").version("v1beta1"));
    v.push(SupportedApi::new("essentialcontacts", "Essential Contacts", "Management").alias("essential-contacts").version("v1"));
    v.push(SupportedApi::new("gkebackup", "Backup for GKE", "Storage").alias("gke-backup").version("v1"));
    v.push(SupportedApi::new("gkehub", "GKE Hub (Fleet)", "Compute").alias("gke-hub").alias("fleet").version("v2").version("v1beta1").version("v2beta").version("v2alpha").version("v1").version("v1beta").version("v1alpha"));
    v.push(SupportedApi::new("gkeonprem", "Google Distributed Cloud (GDC) Virtual", "Compute").alias("gke-onprem").version("v1"));
    v.push(SupportedApi::new("iamcredentials", "IAM Service Account Credentials", "Identity & Access").alias("iam-credentials").version("v1"));
    v.push(SupportedApi::new("identitytoolkit", "Identity Toolkit", "Identity & Access").alias("identity-toolkit").version("v2").version("v1"));
    v.push(SupportedApi::new("integrations", "Application Integration", "Integration").version("v1"));
    assert(v.deep_view() =~= secondary_d_to_i_catalog());
    v
}

/// The secondary services whose names begin with the letters `j` to `o`.
pub open spec fn secondary_j_to_o_catalog() -> Seq<SupportedApiView> {
    seq![
        service("jobs"@, "Cloud Talent Solution"@, "AI/ML"@).alias("talent-solution"@).version("v3"@).version("v3p1beta1"@),
        service("kmsinventory"@, "KMS Inventory"@, "Security"@).alias("kms-inventory"@).version("v1"@),
        service("memcache"@, "Memorystore for Memcached"@, "Databases"@).version("v1"@).version("v1beta2"@),
        service("metastore"@, "Dataproc Metastore"@, "Analytics"@).alias("dataproc-metastore"@).version("v1"@).version("v1beta"@).version("v1alpha"@),
        service("networksecurity"@, "Network Security (Service Mesh)"@, "Networking"@).alias("network-security"@).version("v1beta1"@),
        service("networkservices"@, "Network Services (Service Mesh)"@, "Networking"@).alias("network-services"@).version("v1"@).version("v1beta1"@),
        service("notebooks"@, "Vertex AI Workbench Notebooks"@, "AI/ML"@).version("v1"@).version("v2"@),
        service("ondemandscanning"@, "On-Demand Scanning"@, "Security"@).alias("ondemand-scanning"@).version("v1"@),
        service("oracledatabase"@, "Oracle Database@Google Cloud"@, "Databases"@).alias("oracle-database"@).version("v1"@),
        service("osconfig"@, "OS Config"@, "Management"@).alias("os-config"@).version("v1"@).version("v1beta"@).version("v1alpha"@).version("v2beta"@),
        service("oslogin"@, "Cloud OS Login"@, "Security"@).alias("os-login"@).version("v1"@).version("v1beta"@).version("v1alpha"@),
    ]
}

fn secondary_j_to_o() -> (v: Vec<SupportedApi>)
    ensures
        v.deep_view() == secondary_j_to_o_catalog(),
        well_formed(v.deep_view()),
{
    let mut v: Vec<SupportedApi> = Vec::new();
    v.push(SupportedApi::new("jobs", "Cloud Talent Solution", "AI/ML").alias("talent-solution").version("v3").version("v3p1beta1"));
    v.push(SupportedApi::new("kmsinventory", "KMS Inventory", "Security").alias("kms-inventory").version("v1"));
    v.push(SupportedApi::new("memcache", "Memorystore for Memcached", "Databases").version("v1").version("v1beta2"));
    v.push(SupportedApi::new("metastore", "Dataproc Metastore", "Analytics").alias("dataproc-metastore").version("v1").version("v1beta").version("v1alpha"));
    v.push(SupportedApi::new("networksecurity", "Network Security (Service Mesh)", "Networking").alias("network-security").version("v1beta1"));
    v.push(SupportedApi::new("networkservices", "Network Services (Service Mesh)", "Networking").alias("network-services").version("v1").version("v1beta1"));
    v.push(SupportedApi::new("notebooks", "Vertex AI Workbench Notebooks", "AI/ML").version("v1").version("v2"));
    v.push(SupportedApi::new("ondemandscanning", "On-Demand Scanning", "Security").alias("ondemand-scanning").version("v1"));
    v.push(SupportedApi::new("oracledatabase", "Oracle Database@Google Cloud", "Databases").alias("oracle-database").version("v1"));
    v.push(SupportedApi::new("osconfig", "OS Config", "Management").alias("os-config").version("v1").version("v1beta").version("v1alpha").version("v2beta"));
    v.push(SupportedApi::new("oslogin", "Cloud OS Login", "Security").alias("os-login").version("v1").version("v1beta").version("v1alpha"));
    assert(v.deep_view() =~= secondary_j_to_o_catalog());
    v
}

/// The secondary services whose names begin with the letters `p` to `r`.
pub open spec fn secondary_p_to_r_catalog() -> Seq<SupportedApiView> {
    seq![
        service("policysimulator"@, "Policy Simulator"@, "Security"@).alias("policy-simulator"@).version("v1"@).version("v1beta"@),
        service("policytroubleshooter"@, "Policy Troubleshooter"@, "Management"@).alias("policy-troubleshooter"@).version("v1"@),
        service("publicca"@, "Public Certificate Authority"@, "Security"@).alias("public-ca"@).version("v1"@),
        service("pubsublite"@, "Pub/Sub Lite"@, "Analytics"@).alias("pubsub-lite"@).version("v1"@),
        service("rapidmigrationassessment"@, "Rapid Migration Assessment"@, "Migration"@).alias("ramp"@).version("v1"@),
        service("recommendationengine"@, "Recommendations AI"@, "AI/ML"@).alias("recommendation-engine"@).version("v1beta1"@),
        service("resourcesettings"@, "Resource Settings"@, "Management"@).alias("resource-settings"@).version("v1"@),
        service("retail"@, "Vertex AI Search for Retail"@, "AI/ML"@).version("v2"@).version("v2beta"@).version("v2alpha"@),
        service("runtimeconfig"@, "Cloud Runtime Configuration"@, "Management"@).alias("runtime-config"@).version("v1beta1"@),
    ]
}

fn secondary_p_to_r() -> (v: Vec<SupportedApi>)
    ensures
        v.deep_view() == secondary_p_to_r_catalog(),
        well_formed(v.deep_view()),
{
    let mut v: Vec<SupportedApi> = Vec::new();
    v.push(SupportedApi::new("policysimulator", "Policy Simulator", "Security").alias("policy-simulator").version("v1").version("v1beta"));
    v.push(SupportedApi::new("policytroubleshooter", "Policy Troubleshooter", "Management").alias("policy-troubleshooter").version("v1"));
    v.push(SupportedApi::new("publicca", "Public Certificate Authority", "Security").alias("public-ca").version("v1"));
    v.push(SupportedApi::new("pubsublite", "Pub/Sub Lite", "Analytics").alias("pubsub-lite").version("v1"));
    v.push(SupportedApi::new("rapidmigrationassessment", "Rapid Migration Assessment", "Migration").alias("ramp").version("v1"));
    v.push(SupportedApi::new("recommendationengine", "Recommendations AI", "AI/ML").alias("recommendation-engine").version("v1beta1"));
    v.push(SupportedApi::new("resourcesettings", "Resource Settings", "Management").alias("resource-settings").version("v1"));
    v.push(SupportedApi::new("retail", "Vertex AI Search for Retail", "AI/ML").version("v2").version("v2beta").version("v2alpha"));
    v.push(SupportedApi::new("runtimeconfig", "Cloud Runtime Configuration", "Management").alias("runtime-config").version("v1beta1"));
    assert(v.deep_view() =~= secondary_p_to_r_catalog());
    v
}

/// The secondary services whose names begin with the letters `s` to `w`.
pub open spec fn secondary_s_to_w_catalog() -> Seq<SupportedApiView> {
    seq![
        service("serviceconsumermanagement"@, "Service Consumer Management"@, "Management"@).alias("service-consumer-management"@).version("v1"@).version("v1beta1"@),
        service("servicecontrol"@, "Service Control"@, "Management"@).alias("service-control"@).version("v2"@).version("v1"@),
        service("servicemanagement"@, "Service Management"@, "Management"@).alias("service-management"@).version("v1"@),
        service("servicenetworking"@, "Service Networking"@, "Networking"@).alias("service-networking"@).version("v1"@),
        service("speech"@, "Cloud Speech-to-Text"@, "AI/ML"@).alias("speech-to-text"@).version("v1"@).version("v1p1beta1"@),
        service("sts"@, "Security Token Service"@, "Security"@).version("v1"@),
        service("texttospeech"@, "Cloud Text-to-Speech"@, "AI/ML"@).alias("text-to-speech"@).version("v1"@).version("v1beta1"@),
        service("tpu"@, "Cloud TPU"@, "Compute"@).version("v2"@).version("v2alpha1"@).version("v1"@).version("v1alpha1"@),
        service("vpcaccess"@, "Serverless VPC Access"@, "Networking"@).alias("vpc-access"@).version("v1"@).version("v1beta1"@),
        service("workflowexecutions"@, "Workflow Executions"@, "Serverless"@).alias("workflow-executions"@).version("v1"@).version("v1beta"@),
    ]
}

fn secondary_s_to_w() -> (v: Vec<SupportedApi>)
    ensures
        v.deep_view() == secondary_s_to_w_catalog(),
        well_formed(v.deep_view()),
{
    let mut v: Vec<SupportedApi> = Vec::new();
    v.push(SupportedApi::new("serviceconsumermanagement", "Service Consumer Management", "Management").alias("service-consumer-management").version("v1").version("v1beta1"));
    v.push(SupportedApi::new("servicecontrol", "Service Control", "Management").alias("service-control").version("v2").version("v1"));
    v.push(SupportedApi::new("servicemanagement", "Service Management", "Management").alias("service-management").version("v1"));
    v.push(SupportedApi::new("servicenetworking", "Service Networking", "Networking").alias("service-networking").version("v1"));
    v.push(SupportedApi::new("speech", "Cloud Speech-to-Text", "AI/ML").alias("speech-to-text").version("v1").version("v1p1beta1"));
    v.push(SupportedApi::new("sts", "Security Token Service", "Security").version("v1"));
    v.push(SupportedApi::new("texttospeech", "Cloud Text-to-Speech", "AI/ML").alias("text-to-speech").version("v1").version("v1beta1"));
    v.push(SupportedApi::new("tpu", "Cloud TPU", "Compute").version("v2").version("v2alpha1").version("v1").version("v1alpha1"));
    v.push(SupportedApi::new("vpcaccess", "Serverless VPC Access", "Networking").alias("vpc-access").version("v1").version("v1beta1"));
    v.push(SupportedApi::new("workflowexecutions", "Workflow Executions", "Serverless").alias("workflow-executions").version("v1").version("v1beta"));
    assert(v.deep_view() =~= secondary_s_to_w_catalog());
    v
}

/// The services of the first rank.
pub open spec fn primary_catalog() -> Seq<SupportedApiView> {
    primary_a_catalog() + primary_b_catalog() + primary_c_catalog() + primary_d_catalog() + primary_e_to_l_catalog() + primary_m_to_r_catalog() + primary_s_to_t_catalog() + primary_v_to_w_catalog()
}

/// The services of the second rank: those that are part of a larger one
/// of the first rank, or that are seldom addressed directly.
pub open spec fn secondary_catalog() -> Seq<SupportedApiView> {
    secondary_a_catalog() + secondary_b_catalog() + secondary_c_catalog() + secondary_d_to_i_catalog() + secondary_j_to_o_catalog() + secondary_p_to_r_catalog() + secondary_s_to_w_catalog()
}

/// The services that the discovery directory does not list.
pub open spec fn standalone_catalog() -> Seq<SupportedApiView> {
    seq![service("generativelanguage"@, "Gemini"@, "AI/ML"@).alias("gemini"@).version("v1beta"@)]
}

/// The catalog: the services of the first rank, those of the second rank
/// where all are asked for, then the standalone ones.
pub open spec fn catalog(all_apis: bool) -> Seq<SupportedApiView> {
    if all_apis {
        primary_catalog() + secondary_catalog() + standalone_catalog()
    } else {
        primary_catalog() + standalone_catalog()
    }
}

fn primary_apis() -> (v: Vec<SupportedApi>)
    ensures
        v.deep_view() == primary_catalog(),
        well_formed(v.deep_view()),
{
    let mut v: Vec<SupportedApi> = Vec::new();
    assert(v.deep_view() =~= Seq::<SupportedApiView>::empty());
    let mut part = primary_a();
    let ghost had = v.deep_view();
    let ghost more = part.deep_view();
    v.append(&mut part);
    assert(v.deep_view() =~= had + more);
    let mut part = primary_b();
    let ghost had = v.deep_view();
    let ghost more = part.deep_view();
    v.append(&mut part);
    assert(v.deep_view() =~= had + more);
    let mut part = primary_c();
    let ghost had = v.deep_view();
    let ghost more = part.deep_view();
    v.append(&mut part);
    assert(v.deep_view() =~= had + more);
    let mut part = primary_d();
    let ghost had = v.deep_view();
    let ghost more = part.deep_view();
    v.append(&mut part);
    assert(v.deep_view() =~= had + more);
    let mut part = primary_e_to_l();
    let ghost had = v.deep_view();
    let ghost more = part.deep_view();
    v.append(&mut part);
    assert(v.deep_view() =~= had + more);
    let mut part = primary_m_to_r();
    let ghost had = v.deep_view();
    let ghost more = part.deep_view();
    v.append(&mut part);
    assert(v.deep_view() =~= had + more);
    let mut part = primary_s_to_t();
    let ghost had = v.deep_view();
    let ghost more = part.deep_view();
    v.append(&mut part);
    assert(v.deep_view() =~= had + more);
    let mut part = primary_v_to_w();
    let ghost had = v.deep_view();
    let ghost more = part.deep_view();
    v.append(&mut part);
    assert(v.deep_view() =~= had + more);
    assert(v.deep_view() =~= primary_catalog());
    v
}

fn secondary_apis() -> (v: Vec<SupportedApi>)
    ensures
        v.deep_view() == secondary_catalog(),
        well_formed(v.deep_view()),
{
    let mut v: Vec<SupportedApi> = Vec::new();
    assert(v.deep_view() =~= Seq::<SupportedApiView>::empty());
    let mut part = secondary_a();
    let ghost had = v.deep_view();
    let ghost more = part.deep_view();
    v.append(&mut part);
    assert(v.deep_view() =~= had + more);
    let mut part = secondary_b();
    let ghost had = v.deep_view();
    let ghost more = part.deep_view();
    v.append(&mut part);
    assert(v.deep_view() =~= had + more);
    let mut part = secondary_c();
    let ghost had = v.deep_view();
    let ghost more = part.deep_view();
    v.append(&mut part);
    assert(v.deep_view() =~= had + more);
    let mut part = secondary_d_to_i();
    let ghost had = v.deep_view();
    let ghost more = part.deep_view();
    v.append(&mut part);
    assert(v.deep_view() =~= had + more);
    let mut part = secondary_j_to_o();
    let ghost had = v.deep_view();
    let ghost more = part.deep_view();
    v.append(&mut part);
    assert(v.deep_view() =~= had + more);
    let mut part = secondary_p_to_r();
    let ghost had = v.deep_view();
    let ghost more = part.deep_view();
    v.append(&mut part);
    assert(v.deep_view() =~= had + more);
    let mut part = secondary_s_to_w();
    let ghost had = v.deep_view();
    let ghost more = part.deep_view();
    v.append(&mut part);
    assert(v.deep_view() =~= had + more);
    assert(v.deep_view() =~= secondary_catalog());
    v
}

/// The services that the discovery directory does not list, and whose
/// description has to be asked for from the service itself.
pub fn standalone_apis() -> (v: Vec<SupportedApi>)
    ensures
        v.deep_view() == standalone_catalog(),
        well_formed(v.deep_view()),
{
    let mut v: Vec<SupportedApi> = Vec::new();
    v.push(SupportedApi::new("generativelanguage", "Gemini", "AI/ML").alias("gemini").version("v1beta"));
    assert(v.deep_view() =~= standalone_catalog());
    v
}

/// The services that can be addressed: those of the first rank and the
/// standalone ones, and with `all_apis` those of the second rank too.
pub fn supported_apis(all_apis: bool) -> (v: Vec<SupportedApi>)
    ensures
        v.deep_view() == catalog(all_apis),
        well_formed(v.deep_view()),
{
    let mut v = primary_apis();
    if all_apis {
        let mut part = secondary_apis();
        let ghost had = v.deep_view();
        let ghost more = part.deep_view();
        v.append(&mut part);
        assert(v.deep_view() =~= had + more);
    }
    let mut part = standalone_apis();
    let ghost had = v.deep_view();
    let ghost more = part.deep_view();
    v.append(&mut part);
    assert(v.deep_view() =~= had + more);
    v
}

/// The service goes by `name`: it is its name or one of its aliases.
pub open spec fn answers_to(api: SupportedApiView, name: Seq<char>) -> bool {
    api.name == name || api.aliases.contains(name)
}

/// The first service at or after `from` that goes by `name`.
pub open spec fn first_answering(apis: Seq<SupportedApiView>, name: Seq<char>, from: int) -> Option<
    SupportedApiView,
>
    decreases apis.len() - from,
{
    if from < 0 || from >= apis.len() {
        None
    } else if answers_to(apis[from], name) {
        Some(apis[from])
    } else {
        first_answering(apis, name, from + 1)
    }
}

/// The name or alias that `api_string` gives, before its first colon.
pub open spec fn asked_name(api_string: Seq<char>) -> Seq<char> {
    match split_once(api_string, ':') {
        Some(parts) => parts.0,
        None => api_string,
    }
}

/// The version that `api_string` gives, after its first colon, if any.
pub open spec fn asked_version(api_string: Seq<char>) -> Option<Seq<char>> {
    match split_once(api_string, ':') {
        Some(parts) => Some(parts.1),
        None => None,
    }
}

/// The name and version that `api_string` stands for among `apis`: the
/// name of the first service that goes by the name or alias given, with the
/// version given, where the service has it, or with the service's first
/// version, where none is given.
pub open spec fn looked_up_in(apis: Seq<SupportedApiView>, api_string: Seq<char>) -> Option<
    (Seq<char>, Seq<char>),
> {
    match first_answering(apis, asked_name(api_string), 0) {
        Some(api) => match asked_version(api_string) {
            Some(version) => if api.versions.contains(version) {
                Some((api.name, version))
            } else {
                None
            },
            None => if api.versions.len() > 0 {
                Some((api.name, api.versions[0]))
            } else {
                None
            },
        },
        None => None,
    }
}

/// The name and version that `api_string` stands for in the catalog.
pub open spec fn looked_up(api_string: Seq<char>) -> Option<(Seq<char>, Seq<char>)> {
    looked_up_in(catalog(true), api_string)
}

fn find_answering(apis: &Vec<SupportedApi>, name: &str) -> (r: Option<usize>)
    ensures
        match r {
            Some(i) => i < apis.len() && first_answering(apis.deep_view(), name@, 0) == Some(
                apis@[i as int]@,
            ),
            None => first_answering(apis.deep_view(), name@, 0) is None,
        },
{
    let mut i: usize = 0;
    while i < apis.len()
        invariant
            i <= apis.len(),
            first_answering(apis.deep_view(), name@, 0) == first_answering(
                apis.deep_view(),
                name@,
                i as int,
            ),
        decreases apis.len() - i,
    {
        assert(apis.deep_view()[i as int] == apis@[i as int]@);
        if same(apis[i].name.as_str(), name) || has_string(&apis[i].aliases, name) {
            return Some(i);
        }
        i += 1;
    }
    None
}

/// Finds the name and the version of the service that `api_string` stands
/// for: a name or an alias, alone or followed by a colon and a version.
pub fn lookup_api(api_string: &str) -> (r: Option<(String, String)>)
    ensures
        r.deep_view() == looked_up(api_string@),
{
    let (name_or_alias, explicit_version): (String, Option<String>) = match cut_once(
        api_string,
        ':',
    ) {
        Some(parts) => (parts.0, Some(parts.1)),
        None => (api_string.to_owned(), None),
    };
    assert(name_or_alias@ == asked_name(api_string@));
    assert(explicit_version.deep_view() == asked_version(api_string@));
    let apis = supported_apis(true);
    match find_answering(&apis, name_or_alias.as_str()) {
        Some(i) => {
            let api = &apis[i];
            match explicit_version {
                Some(version) => {
                    if has_string(&api.versions, version.as_str()) {
                        Some((api.name.clone(), version))
                    } else {
                        None
                    }
                },
                None => {
                    assert(apis.deep_view()[i as int] == api@);
                    Some((api.name.clone(), api.default_version().to_owned()))
                },
            }
        },
        None => None,
    }
}

} // verus!
