//! Service for the `/templates` endpoints: listing templates with
//! offset-style pagination, and creating templates.

use vstd::prelude::*;
use crate::config::{Config, Method, OutboundRequest, built_request_with_body, request_shape,
    is_success, classified_err, parse_fail_text, data_of, parse_failure_text, success_data,
    opt_u32_param, opt_u64_param};
use crate::error::Error;
use crate::json::{Json, Jv, lookup, FromJson, vec_view, get_str, get_bool, get_u64, get_u32,
    get_opt_u64, get_rec, get_vec, get_vec_or_empty, str_of, bool_of, u64_field_of, u32_field_of,
    opt_u64_of, rec_of, arr_rec_of, arr_rec_default_of, opt_str_jfield, opt_u64_jfield, render,
    render_string, lemma_jv_fields, jv_fields, opt_str_view};
use crate::text::{u64_dec_string, u32_dec_string};

verus! {

/// Options for listing templates.
#[derive(Debug, Clone)]
pub struct ListTemplatesOptions {
    /// Filter by project ID; the team's default project if unset.
    pub project_id: Option<u64>,
    /// Results per page.
    pub per_page: Option<u32>,
    /// Page number (offset-style pagination).
    pub page: Option<u32>,
}

impl ListTemplatesOptions {
    /// Creates new options with no filters set.
    pub fn new() -> (r: Self)
        ensures
            r.project_id is None,
            r.per_page is None,
            r.page is None,
    {
        ListTemplatesOptions { project_id: None, per_page: None, page: None }
    }

    /// Filter by project ID. If not set, uses the team's default
    /// project.
    pub fn project_id(self, project_id: u64) -> (r: Self)
        ensures
            r.project_id == Some(project_id),
            r.per_page == self.per_page,
            r.page == self.page,
    {
        ListTemplatesOptions { project_id: Some(project_id), ..self }
    }

    /// Sets the number of results per page (1-100).
    pub fn per_page(self, per_page: u32) -> (r: Self)
        ensures
            r.per_page == Some(per_page),
            r.project_id == self.project_id,
            r.page == self.page,
    {
        ListTemplatesOptions { per_page: Some(per_page), ..self }
    }

    /// Sets the page number.
    pub fn page(self, page: u32) -> (r: Self)
        ensures
            r.page == Some(page),
            r.project_id == self.project_id,
            r.per_page == self.per_page,
    {
        ListTemplatesOptions { page: Some(page), ..self }
    }
}

/// Options for creating a new template.
#[derive(Debug, Clone)]
pub struct CreateTemplateOptions {
    /// Template name.
    pub name: String,
    /// HTML content for the template.
    pub html: Option<String>,
    /// Structured editor JSON content.
    pub json: Option<String>,
    /// Project ID. If not set, uses the team's default project.
    pub project_id: Option<u64>,
    /// Folder ID within the project.
    pub folder_id: Option<u64>,
}

/// The model of template-creation options.
pub struct CreateTemplateOptionsV {
    pub name: Seq<char>,
    pub html: Option<Seq<char>>,
    pub json: Option<Seq<char>>,
    pub project_id: Option<u64>,
    pub folder_id: Option<u64>,
}

impl View for CreateTemplateOptions {
    type V = CreateTemplateOptionsV;

    open spec fn view(&self) -> CreateTemplateOptionsV {
        CreateTemplateOptionsV {
            name: self.name@,
            html: opt_str_view(self.html),
            json: opt_str_view(self.json),
            project_id: self.project_id,
            folder_id: self.folder_id,
        }
    }
}

impl CreateTemplateOptions {
    /// Creates new options with the given name and nothing else set.
    pub fn new(name: &str) -> (r: Self)
        ensures
            r@ == (CreateTemplateOptionsV {
                name: name@,
                html: None,
                json: None,
                project_id: None,
                folder_id: None,
            }),
    {
        CreateTemplateOptions {
            name: name.to_owned(),
            html: None,
            json: None,
            project_id: None,
            folder_id: None,
        }
    }

    /// Sets the HTML content for the template.
    pub fn with_html(self, html: &str) -> (r: Self)
        ensures
            r@ == (CreateTemplateOptionsV { html: Some(html@), ..self@ }),
    {
        let mut s = self;
        s.html = Some(html.to_owned());
        s
    }

    /// Sets the structured editor JSON content for the template.
    pub fn with_json(self, json: &str) -> (r: Self)
        ensures
            r@ == (CreateTemplateOptionsV { json: Some(json@), ..self@ }),
    {
        let mut s = self;
        s.json = Some(json.to_owned());
        s
    }

    /// Sets the project ID.
    pub fn with_project_id(self, project_id: u64) -> (r: Self)
        ensures
            r@ == (CreateTemplateOptionsV { project_id: Some(project_id), ..self@ }),
    {
        let mut s = self;
        s.project_id = Some(project_id);
        s
    }

    /// Sets the folder ID.
    pub fn with_folder_id(self, folder_id: u64) -> (r: Self)
        ensures
            r@ == (CreateTemplateOptionsV { folder_id: Some(folder_id), ..self@ }),
    {
        let mut s = self;
        s.folder_id = Some(folder_id);
        s
    }
}

/// An email template.
#[derive(Debug, Clone)]
pub struct Template {
    /// Template ID.
    pub id: u64,
    /// Template name.
    pub name: String,
    /// URL-friendly slug.
    pub slug: String,
    /// Project ID this template belongs to.
    pub project_id: u64,
    /// Folder ID this template belongs to.
    pub folder_id: Option<u64>,
    /// Creation timestamp.
    pub created_at: String,
    /// Last update timestamp.
    pub updated_at: String,
}

/// The model of a template.
pub struct TemplateV {
    pub id: u64,
    pub name: Seq<char>,
    pub slug: Seq<char>,
    pub project_id: u64,
    pub folder_id: Option<u64>,
    pub created_at: Seq<char>,
    pub updated_at: Seq<char>,
}

impl View for Template {
    type V = TemplateV;

    open spec fn view(&self) -> TemplateV {
        TemplateV {
            id: self.id,
            name: self.name@,
            slug: self.slug@,
            project_id: self.project_id,
            folder_id: self.folder_id,
            created_at: self.created_at@,
            updated_at: self.updated_at@,
        }
    }
}

impl FromJson for Template {
    open spec fn of_jv(j: Jv) -> Option<TemplateV> {
        match j {
            Jv::Obj(fs) => match (u64_field_of(lookup(fs, "id"@)), str_of(lookup(fs, "name"@)),
                str_of(lookup(fs, "slug"@)), u64_field_of(lookup(fs, "project_id"@)), opt_u64_of(
                lookup(fs, "folder_id"@)), str_of(lookup(fs, "created_at"@)), str_of(lookup(
                fs, "updated_at"@))) {
                (Some(id), Some(name), Some(slug), Some(project_id), Some(folder_id), Some(
                created_at), Some(updated_at)) => Some(
                    TemplateV { id, name, slug, project_id, folder_id, created_at, updated_at },
                ),
                _ => None,
            },
            _ => None,
        }
    }

    fn from_json(j: &Json) -> (r: Option<Template>) {
        match j {
            Json::Obj(fs) => {
                let id = match get_u64(fs, "id") {
                    Some(x) => x,
                    None => {
                        return None;
                    },
                };
                let name = match get_str(fs, "name") {
                    Some(x) => x,
                    None => {
                        return None;
                    },
                };
                let slug = match get_str(fs, "slug") {
                    Some(x) => x,
                    None => {
                        return None;
                    },
                };
                let project_id = match get_u64(fs, "project_id") {
                    Some(x) => x,
                    None => {
                        return None;
                    },
                };
                let folder_id = match get_opt_u64(fs, "folder_id") {
                    Some(x) => x,
                    None => {
                        return None;
                    },
                };
                let created_at = match get_str(fs, "created_at") {
                    Some(x) => x,
                    None => {
                        return None;
                    },
                };
                let updated_at = match get_str(fs, "updated_at") {
                    Some(x) => x,
                    None => {
                        return None;
                    },
                };
                Some(Template { id, name, slug, project_id, folder_id, created_at, updated_at })
            },
            _ => None,
        }
    }
}

/// Pagination metadata for template list responses.
#[derive(Debug, Clone, Copy)]
pub struct TemplatePagination {
    /// Total number of templates.
    pub total: u64,
    /// Results per page.
    pub per_page: u32,
    /// Current page number.
    pub current_page: u32,
    /// Last page number.
    pub last_page: u32,
}

impl View for TemplatePagination {
    type V = TemplatePagination;

    open spec fn view(&self) -> TemplatePagination {
        *self
    }
}

impl FromJson for TemplatePagination {
    open spec fn of_jv(j: Jv) -> Option<TemplatePagination> {
        match j {
            Jv::Obj(fs) => match (u64_field_of(lookup(fs, "total"@)), u32_field_of(lookup(
                fs, "per_page"@)), u32_field_of(lookup(fs, "current_page"@)), u32_field_of(
                lookup(fs, "last_page"@))) {
                (Some(total), Some(per_page), Some(current_page), Some(last_page)) => Some(
                    TemplatePagination { total, per_page, current_page, last_page },
                ),
                _ => None,
            },
            _ => None,
        }
    }

    fn from_json(j: &Json) -> (r: Option<TemplatePagination>) {
        match j {
            Json::Obj(fs) => {
                let total = match get_u64(fs, "total") {
                    Some(x) => x,
                    None => {
                        return None;
                    },
                };
                let per_page = match get_u32(fs, "per_page") {
                    Some(x) => x,
                    None => {
                        return None;
                    },
                };
                let current_page = match get_u32(fs, "current_page") {
                    Some(x) => x,
                    None => {
                        return None;
                    },
                };
                let last_page = match get_u32(fs, "last_page") {
                    Some(x) => x,
                    None => {
                        return None;
                    },
                };
                Some(TemplatePagination { total, per_page, current_page, last_page })
            },
            _ => None,
        }
    }
}

/// Response from listing templates.
#[derive(Debug, Clone)]
pub struct ListTemplatesResponse {
    /// List of templates.
    pub templates: Vec<Template>,
    /// Pagination information.
    pub pagination: TemplatePagination,
}

/// The model of a template-list response.
pub struct ListTemplatesResponseV {
    pub templates: Seq<TemplateV>,
    pub pagination: TemplatePagination,
}

impl View for ListTemplatesResponse {
    type V = ListTemplatesResponseV;

    open spec fn view(&self) -> ListTemplatesResponseV {
        ListTemplatesResponseV { templates: vec_view(self.templates@), pagination: self.pagination }
    }
}

impl FromJson for ListTemplatesResponse {
    open spec fn of_jv(j: Jv) -> Option<ListTemplatesResponseV> {
        match j {
            Jv::Obj(fs) => match (arr_rec_of::<Template>(lookup(fs, "templates"@)), rec_of::<
                TemplatePagination>(lookup(fs, "pagination"@))) {
                (Some(templates), Some(pagination)) => Some(
                    ListTemplatesResponseV { templates, pagination },
                ),
                _ => None,
            },
            _ => None,
        }
    }

    fn from_json(j: &Json) -> (r: Option<ListTemplatesResponse>) {
        match j {
            Json::Obj(fs) => {
                let templates = match get_vec::<Template>(fs, "templates") {
                    Some(x) => x,
                    None => {
                        return None;
                    },
                };
                let pagination = match get_rec::<TemplatePagination>(fs, "pagination") {
                    Some(x) => x,
                    None => {
                        return None;
                    },
                };
                Some(ListTemplatesResponse { templates, pagination })
            },
            _ => None,
        }
    }
}

/// A merge tag extracted from a template.
#[derive(Debug, Clone)]
pub struct MergeTag {
    /// The merge tag key.
    pub key: String,
    /// Whether this merge tag is required.
    pub required: bool,
}

/// The model of a merge tag.
pub struct MergeTagV {
    pub key: Seq<char>,
    pub required: bool,
}

impl View for MergeTag {
    type V = MergeTagV;

    open spec fn view(&self) -> MergeTagV {
        MergeTagV { key: self.key@, required: self.required }
    }
}

impl FromJson for MergeTag {
    open spec fn of_jv(j: Jv) -> Option<MergeTagV> {
        match j {
            Jv::Obj(fs) => match (str_of(lookup(fs, "key"@)), bool_of(lookup(fs, "required"@))) {
                (Some(key), Some(required)) => Some(MergeTagV { key, required }),
                _ => None,
            },
            _ => None,
        }
    }

    fn from_json(j: &Json) -> (r: Option<MergeTag>) {
        match j {
            Json::Obj(fs) => {
                let key = match get_str(fs, "key") {
                    Some(x) => x,
                    None => {
                        return None;
                    },
                };
                let required = match get_bool(fs, "required") {
                    Some(x) => x,
                    None => {
                        return None;
                    },
                };
                Some(MergeTag { key, required })
            },
            _ => None,
        }
    }
}

/// Response from creating a template.
#[derive(Debug, Clone)]
pub struct CreateTemplateResponse {
    /// Template ID.
    pub id: u64,
    /// Template name.
    pub name: String,
    /// URL-friendly slug.
    pub slug: String,
    /// Project ID.
    pub project_id: u64,
    /// Folder ID.
    pub folder_id: Option<u64>,
    /// Active version number.
    pub active_version: u32,
    /// Extracted merge tags.
    pub merge_tags: Vec<MergeTag>,
    /// Creation timestamp.
    pub created_at: String,
}

/// The model of a template-creation response.
pub struct CreateTemplateResponseV {
    pub id: u64,
    pub name: Seq<char>,
    pub slug: Seq<char>,
    pub project_id: u64,
    pub folder_id: Option<u64>,
    pub active_version: u32,
    pub merge_tags: Seq<MergeTagV>,
    pub created_at: Seq<char>,
}

impl View for CreateTemplateResponse {
    type V = CreateTemplateResponseV;

    open spec fn view(&self) -> CreateTemplateResponseV {
        CreateTemplateResponseV {
            id: self.id,
            name: self.name@,
            slug: self.slug@,
            project_id: self.project_id,
            folder_id: self.folder_id,
            active_version: self.active_version,
            merge_tags: vec_view(self.merge_tags@),
            created_at: self.created_at@,
        }
    }
}

impl FromJson for CreateTemplateResponse {
    open spec fn of_jv(j: Jv) -> Option<CreateTemplateResponseV> {
        match j {
            Jv::Obj(fs) => match (u64_field_of(lookup(fs, "id"@)), str_of(lookup(fs, "name"@)),
                str_of(lookup(fs, "slug"@)), u64_field_of(lookup(fs, "project_id"@)), opt_u64_of(
                lookup(fs, "folder_id"@)), u32_field_of(lookup(fs, "active_version"@)),
                arr_rec_default_of::<MergeTag>(lookup(fs, "merge_tags"@)), str_of(lookup(
                fs, "created_at"@))) {
                (Some(id), Some(name), Some(slug), Some(project_id), Some(folder_id), Some(
                active_version), Some(merge_tags), Some(created_at)) => Some(
                    CreateTemplateResponseV {
                        id,
                        name,
                        slug,
                        project_id,
                        folder_id,
                        active_version,
                        merge_tags,
                        created_at,
                    },
                ),
                _ => None,
            },
            _ => None,
        }
    }

    fn from_json(j: &Json) -> (r: Option<CreateTemplateResponse>) {
        match j {
            Json::Obj(fs) => {
                let id = match get_u64(fs, "id") {
                    Some(x) => x,
                    None => {
                        return None;
                    },
                };
                let name = match get_str(fs, "name") {
                    Some(x) => x,
                    None => {
                        return None;
                    },
                };
                let slug = match get_str(fs, "slug") {
                    Some(x) => x,
                    None => {
                        return None;
                    },
                };
                let project_id = match get_u64(fs, "project_id") {
                    Some(x) => x,
                    None => {
                        return None;
                    },
                };
                let folder_id = match get_opt_u64(fs, "folder_id") {
                    Some(x) => x,
                    None => {
                        return None;
                    },
                };
                let active_version = match get_u32(fs, "active_version") {
                    Some(x) => x,
                    None => {
                        return None;
                    },
                };
                let merge_tags = match get_vec_or_empty::<MergeTag>(fs, "merge_tags") {
                    Some(x) => x,
                    None => {
                        return None;
                    },
                };
                let created_at = match get_str(fs, "created_at") {
                    Some(x) => x,
                    None => {
                        return None;
                    },
                };
                Some(
                    CreateTemplateResponse {
                        id,
                        name,
                        slug,
                        project_id,
                        folder_id,
                        active_version,
                        merge_tags,
                        created_at,
                    },
                )
            },
            _ => None,
        }
    }
}

// ── The service ────────────────────────────────────────────────────

/// The query pairs a template listing sends: each filter only when
/// set, in a fixed order.
pub open spec fn list_templates_query(o: ListTemplatesOptions) -> Seq<(Seq<char>, Seq<char>)> {
    opt_u64_param("project_id"@, o.project_id) + opt_u32_param("per_page"@, o.per_page)
        + opt_u32_param("page"@, o.page)
}

/// The object fields of a template-creation body: the name, then
/// each optional part only when set.
pub open spec fn create_template_fields(v: CreateTemplateOptionsV) -> Seq<(Seq<char>, Jv)> {
    seq![("name"@, Jv::Str(v.name))] + opt_str_jfield("html"@, v.html) + opt_str_jfield(
        "json"@, v.json) + opt_u64_jfield("project_id"@, v.project_id) + opt_u64_jfield(
        "folder_id"@, v.folder_id)
}

/// The JSON body of a template-creation request.
pub open spec fn create_template_body(v: CreateTemplateOptionsV) -> Seq<char> {
    render(Jv::Obj(create_template_fields(v)))
}

/// What the list endpoint's success body decodes to.
pub open spec fn templates_list_of(body: Seq<char>) -> Option<ListTemplatesResponseV> {
    match data_of(body) {
        Some(j) => ListTemplatesResponse::of_jv(j),
        None => None,
    }
}

/// What the create endpoint's success body decodes to.
pub open spec fn template_create_of(body: Seq<char>) -> Option<CreateTemplateResponseV> {
    match data_of(body) {
        Some(j) => CreateTemplateResponse::of_jv(j),
        None => None,
    }
}

/// Service for the `/templates` endpoints.
#[derive(Debug, Clone)]
pub struct TemplatesSvc(pub Config);

impl TemplatesSvc {
    /// The request that lists templates: each present filter appears
    /// in the query in its decimal form; absent filters contribute
    /// nothing.
    pub fn list_request(&self, options: &ListTemplatesOptions) -> (r: OutboundRequest)
        ensures
            request_shape(self.0, Method::Get, "/templates"@, list_templates_query(*options),
                None, r),
    {
        let mut r = self.0.build(Method::Get, "/templates");
        let mut q: Vec<(String, String)> = Vec::new();
        if let Some(project_id) = options.project_id {
            q.push(("project_id".to_owned(), u64_dec_string(project_id)));
        }
        if let Some(per_page) = options.per_page {
            q.push(("per_page".to_owned(), u32_dec_string(per_page)));
        }
        if let Some(page) = options.page {
            q.push(("page".to_owned(), u32_dec_string(page)));
        }
        proof {
            assert(crate::config::qpairs_view(q@) =~= list_templates_query(*options));
        }
        r.query = q;
        r
    }

    /// Interprets the response to a list request.
    pub fn list_response(&self, status: u16, body: &str) -> (r: Result<
        ListTemplatesResponse,
        Error,
    >)
        ensures
            !is_success(status) ==> (r matches Err(e) && classified_err(status, body@, e)),
            is_success(status) ==> match templates_list_of(body@) {
                Some(d) => r matches Ok(v) && v@ == d,
                None => r matches Err(e) && (e matches Error::Parse(t) && t@ == parse_fail_text(
                    status,
                    body@,
                )),
            },
    {
        match self.0.classify(status, body) {
            Some(e) => Err(e),
            None => match success_data(body) {
                Some(d) => match ListTemplatesResponse::from_json(&d) {
                    Some(v) => Ok(v),
                    None => Err(Error::Parse(parse_failure_text(status, body))),
                },
                None => Err(Error::Parse(parse_failure_text(status, body))),
            },
        }
    }

    /// The request that creates a template: a POST whose body
    /// carries the options, each optional part only when set.
    pub fn create_request(&self, options: &CreateTemplateOptions) -> (r: OutboundRequest)
        ensures
            built_request_with_body(self.0, Method::Post, "/templates"@, create_template_body(
                options@), r),
    {
        let mut fields: Vec<(String, Json)> = Vec::new();
        fields.push(("name".to_owned(), Json::Str(options.name.clone())));
        if let Some(html) = &options.html {
            fields.push(("html".to_owned(), Json::Str(html.clone())));
        }
        if let Some(json) = &options.json {
            fields.push(("json".to_owned(), Json::Str(json.clone())));
        }
        if let Some(project_id) = options.project_id {
            fields.push(("project_id".to_owned(), Json::num_u64(project_id)));
        }
        if let Some(folder_id) = options.folder_id {
            fields.push(("folder_id".to_owned(), Json::num_u64(folder_id)));
        }
        proof {
            lemma_jv_fields(fields@);
            assert(jv_fields(fields@) =~= create_template_fields(options@));
        }
        let bodyj = Json::Obj(fields);
        let body = render_string(&bodyj);
        let mut r = self.0.build(Method::Post, "/templates");
        r.body = Some(body);
        r
    }

    /// Interprets the response to a create request.
    pub fn create_response(&self, status: u16, body: &str) -> (r: Result<
        CreateTemplateResponse,
        Error,
    >)
        ensures
            !is_success(status) ==> (r matches Err(e) && classified_err(status, body@, e)),
            is_success(status) ==> match template_create_of(body@) {
                Some(d) => r matches Ok(v) && v@ == d,
                None => r matches Err(e) && (e matches Error::Parse(t) && t@ == parse_fail_text(
                    status,
                    body@,
                )),
            },
    {
        match self.0.classify(status, body) {
            Some(e) => Err(e),
            None => match success_data(body) {
                Some(d) => match CreateTemplateResponse::from_json(&d) {
                    Some(v) => Ok(v),
                    None => Err(Error::Parse(parse_failure_text(status, body))),
                },
                None => Err(Error::Parse(parse_failure_text(status, body))),
            },
        }
    }
}

impl Default for ListTemplatesOptions {
    /// Options with no filters set.
    fn default() -> (r: Self)
        ensures
            r.project_id is None,
            r.per_page is None,
            r.page is None,
    {
        ListTemplatesOptions::new()
    }
}

} // verus!
