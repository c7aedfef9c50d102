//! The error type of the application.
use vstd::prelude::*;
use vstd::string::*;

verus! {

pub type AppResult<T> = Result<T, AppError>;

#[derive(Debug)]
pub enum AppError {
    Config(String),
    Validation(String),
    NotFound(String),
    Conflict(String),
    Database(String),
    Pool(String),
    External { service: &'static str, message: String },
    Serialization(String),
    Io(String),
    Internal(String),
}

/// What an error says, over texts.
pub enum ErrorView {
    Config(Seq<char>),
    Validation(Seq<char>),
    NotFound(Seq<char>),
    Conflict(Seq<char>),
    Database(Seq<char>),
    Pool(Seq<char>),
    External { service: Seq<char>, message: Seq<char> },
    Serialization(Seq<char>),
    Io(Seq<char>),
    Internal(Seq<char>),
}

impl View for AppError {
    type V = ErrorView;

    open spec fn view(&self) -> ErrorView {
        match self {
            AppError::Config(m) => ErrorView::Config(m@),
            AppError::Validation(m) => ErrorView::Validation(m@),
            AppError::NotFound(m) => ErrorView::NotFound(m@),
            AppError::Conflict(m) => ErrorView::Conflict(m@),
            AppError::Database(m) => ErrorView::Database(m@),
            AppError::Pool(m) => ErrorView::Pool(m@),
            AppError::External { service, message } => ErrorView::External {
                service: service@,
                message: message@,
            },
            AppError::Serialization(m) => ErrorView::Serialization(m@),
            AppError::Io(m) => ErrorView::Io(m@),
            AppError::Internal(m) => ErrorView::Internal(m@),
        }
    }
}

/// The text under which an error is shown and recorded.
pub open spec fn error_text(e: ErrorView) -> Seq<char> {
    match e {
        ErrorView::Config(m) => "配置错误: "@ + m,
        ErrorView::Validation(m) => "参数错误: "@ + m,
        ErrorView::NotFound(m) => "资源不存在: "@ + m,
        ErrorView::Conflict(m) => "当前状态不允许执行该操作: "@ + m,
        ErrorView::Database(m) => "数据库操作失败: "@ + m,
        ErrorView::Pool(m) => "数据库连接池操作失败: "@ + m,
        ErrorView::External { service, message } => "外部服务 "@ + service + " 调用失败: "@
            + message,
        ErrorView::Serialization(m) => "序列化失败: "@ + m,
        ErrorView::Io(m) => "文件操作失败: "@ + m,
        ErrorView::Internal(m) => "内部错误: "@ + m,
    }
}

fn labelled(label: &str, message: &str) -> (r: String)
    ensures
        r@ == label@ + message@,
{
    let mut out = label.to_owned();
    out.append(message);
    out
}

impl AppError {
    /// An error of an outside service.
    pub fn external(service: &'static str, message: String) -> (r: AppError)
        ensures
            r == (AppError::External { service, message }),
    {
        AppError::External { service, message }
    }

    /// The text under which the error is shown and recorded.
    pub fn text(&self) -> (r: String)
        ensures
            r@ == error_text(self@),
    {
        match self {
            AppError::Config(m) => labelled("配置错误: ", m.as_str()),
            AppError::Validation(m) => labelled("参数错误: ", m.as_str()),
            AppError::NotFound(m) => labelled("资源不存在: ", m.as_str()),
            AppError::Conflict(m) => labelled("当前状态不允许执行该操作: ", m.as_str()),
            AppError::Database(m) => labelled("数据库操作失败: ", m.as_str()),
            AppError::Pool(m) => labelled("数据库连接池操作失败: ", m.as_str()),
            AppError::External { service, message } => {
                let mut out = "外部服务 ".to_owned();
                out.append(service);
                out.append(" 调用失败: ");
                out.append(message.as_str());
                out
            },
            AppError::Serialization(m) => labelled("序列化失败: ", m.as_str()),
            AppError::Io(m) => labelled("文件操作失败: ", m.as_str()),
            AppError::Internal(m) => labelled("内部错误: ", m.as_str()),
        }
    }
}

/// The text of an error names its kind and ends with what the error says; that of an error of an
/// outside service names the service too.
pub proof fn law_error_text(error: AppError, r: String)
    requires
        call_ensures(AppError::text, (&error,), r),
    ensures
        error matches AppError::Config(m) ==> r@ == "配置错误: "@ + m@,
        error matches AppError::Validation(m) ==> r@ == "参数错误: "@ + m@,
        error matches AppError::NotFound(m) ==> r@ == "资源不存在: "@ + m@,
        error matches AppError::Conflict(m) ==> r@ == "当前状态不允许执行该操作: "@ + m@,
        error matches AppError::Database(m) ==> r@ == "数据库操作失败: "@ + m@,
        error matches AppError::Pool(m) ==> r@ == "数据库连接池操作失败: "@ + m@,
        error matches AppError::External { service, message } ==> r@ == "外部服务 "@ + service@
            + " 调用失败: "@ + message@,
        error matches AppError::Serialization(m) ==> r@ == "序列化失败: "@ + m@,
        error matches AppError::Io(m) ==> r@ == "文件操作失败: "@ + m@,
        error matches AppError::Internal(m) ==> r@ == "内部错误: "@ + m@,
{
}

/// An error of an outside service keeps the name of the service and what went wrong.
pub proof fn law_external_error(service: &'static str, message: String, r: AppError)
    requires
        call_ensures(AppError::external, (service, message), r),
    ensures
        r@ is External,
        r@->External_service == service@,
        r@->External_message == message@,
{
}

} // verus!
